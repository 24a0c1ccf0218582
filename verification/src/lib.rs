use vstd::prelude::*;

pub mod geom;
pub mod grid;
pub mod noise;
pub mod palette;
pub mod pattern;
pub mod texture;
pub mod smooth;
pub mod render;
pub mod rng;
pub mod treatment;
pub mod warp;

verus! {

/// Why a render was refused before any drawing happened.
#[derive(Clone, Copy, PartialEq, Eq, Structural, Debug)]
pub enum RenderError {
    /// A stop sequence had fewer than two entries, was not sorted, or left
    /// the unit interval.
    InvalidStops,
    /// A palette must offer at least one color to sample from.
    EmptyPalette,
    /// The decoded photograph is not in an 8-bit RGB or RGBA layout.
    UnsupportedFormat,
    /// The photograph could not be read or decoded at all.
    Resource,
}

} // verus!
