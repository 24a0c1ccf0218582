use vstd::prelude::*;

use crate::rng::{pcg_draw, SeededRandomStream};

verus! {

/// The fill strategy chosen for a quad: a procedural texture family, a flat
/// fill with grain, or the photographic crop.
#[derive(Clone, Copy, PartialEq, Eq, Structural, Debug)]
pub enum Treatment {
    Stipple,
    Wood,
    Marble,
    Ridge,
    Stripe,
    Sand,
    Granite,
    Grain,
    Photo,
}

/// One half-open integer bucket `[lo, hi)` of the selection table.
#[derive(Clone, Copy, PartialEq, Eq, Structural, Debug)]
pub struct Bucket {
    pub lo: u64,
    pub hi: u64,
    pub fill: Treatment,
}

/// The ordered bucket table: a total partition of `[0, 100)`. The boundaries
/// are tuned art parameters; what matters structurally is that they leave no
/// gaps and never overlap.
pub open spec fn bucket_table_spec() -> Seq<Bucket> {
    seq![
        Bucket { lo: 0, hi: 10, fill: Treatment::Stipple },
        Bucket { lo: 10, hi: 16, fill: Treatment::Wood },
        Bucket { lo: 16, hi: 30, fill: Treatment::Marble },
        Bucket { lo: 30, hi: 40, fill: Treatment::Ridge },
        Bucket { lo: 40, hi: 50, fill: Treatment::Stripe },
        Bucket { lo: 50, hi: 56, fill: Treatment::Sand },
        Bucket { lo: 56, hi: 70, fill: Treatment::Granite },
        Bucket { lo: 70, hi: 100, fill: Treatment::Grain },
    ]
}

/// The bucket table as a vector.
pub fn bucket_table() -> (r: Vec<Bucket>)
    ensures
        r@ == bucket_table_spec(),
{
    let mut t: Vec<Bucket> = Vec::new();
    t.push(Bucket { lo: 0, hi: 10, fill: Treatment::Stipple });
    t.push(Bucket { lo: 10, hi: 16, fill: Treatment::Wood });
    t.push(Bucket { lo: 16, hi: 30, fill: Treatment::Marble });
    t.push(Bucket { lo: 30, hi: 40, fill: Treatment::Ridge });
    t.push(Bucket { lo: 40, hi: 50, fill: Treatment::Stripe });
    t.push(Bucket { lo: 50, hi: 56, fill: Treatment::Sand });
    t.push(Bucket { lo: 56, hi: 70, fill: Treatment::Granite });
    t.push(Bucket { lo: 70, hi: 100, fill: Treatment::Grain });
    proof {
        assert(t@ =~= bucket_table_spec());
    }
    t
}

/// The treatment a draw resolves to: the bucket holding the draw, with the
/// flat-fill-with-grain treatment as the fallback for any unmapped remainder.
pub open spec fn treatment_of(d: u64) -> Treatment {
    if d < 10 {
        Treatment::Stipple
    } else if d < 16 {
        Treatment::Wood
    } else if d < 30 {
        Treatment::Marble
    } else if d < 40 {
        Treatment::Ridge
    } else if d < 50 {
        Treatment::Stripe
    } else if d < 56 {
        Treatment::Sand
    } else if d < 70 {
        Treatment::Granite
    } else {
        Treatment::Grain
    }
}

/// Resolves a draw through the bucket table; draws outside every bucket fall
/// back to the flat-fill-with-grain treatment.
pub fn resolve_treatment(d: u64) -> (t: Treatment)
    ensures
        t == treatment_of(d),
{
    let table = bucket_table();
    let n = table.len();
    let mut k: usize = 0;
    while k < n
        invariant
            n == bucket_table_spec().len(),
            table@ == bucket_table_spec(),
            k <= n,
            forall|i: int|
                0 <= i < k ==> !((#[trigger] bucket_table_spec()[i]).lo <= d
                    < bucket_table_spec()[i].hi),
        decreases n - k,
    {
        let b = table[k];
        if b.lo <= d && d < b.hi {
            return b.fill;
        }
        k = k + 1;
    }
    Treatment::Grain
}

/// Law: the bucket table partitions `[0, 100)`. Every integer draw below 100
/// lies inside exactly one bucket, and that bucket carries the treatment the
/// resolver returns.
pub proof fn lemma_bucket_partition(d: u64)
    requires
        d < 100,
    ensures
        exists|i: int|
            0 <= i < bucket_table_spec().len() && (#[trigger] bucket_table_spec()[i]).lo <= d
                < bucket_table_spec()[i].hi,
        forall|i: int, j: int|
            (0 <= i < bucket_table_spec().len() && 0 <= j < bucket_table_spec().len()
                && (#[trigger] bucket_table_spec()[i]).lo <= d < bucket_table_spec()[i].hi
                && (#[trigger] bucket_table_spec()[j]).lo <= d < bucket_table_spec()[j].hi) ==> i
                == j,
        forall|i: int|
            (0 <= i < bucket_table_spec().len() && (#[trigger] bucket_table_spec()[i]).lo <= d
                < bucket_table_spec()[i].hi) ==> bucket_table_spec()[i].fill == treatment_of(d),
{
    let t = bucket_table_spec();
    if d < 10 {
        assert(t[0].lo <= d < t[0].hi);
    } else if d < 16 {
        assert(t[1].lo <= d < t[1].hi);
    } else if d < 30 {
        assert(t[2].lo <= d < t[2].hi);
    } else if d < 40 {
        assert(t[3].lo <= d < t[3].hi);
    } else if d < 50 {
        assert(t[4].lo <= d < t[4].hi);
    } else if d < 56 {
        assert(t[5].lo <= d < t[5].hi);
    } else if d < 70 {
        assert(t[6].lo <= d < t[6].hi);
    } else {
        assert(t[7].lo <= d < t[7].hi);
    }
}

/// Maps a quad's draw index to its treatment. The quad at the override index
/// always resolves to the photographic treatment, whatever the seed, and
/// consumes no randomness; any other quad consumes exactly one draw below 100
/// and resolves it through the bucket table.
pub fn select_treatment(index: usize, override_index: usize, stream: &mut SeededRandomStream) -> (t:
    Treatment)
    ensures
        index == override_index ==> t == Treatment::Photo && *final(stream) == *old(stream),
        index != override_index ==> {
            &&& t == treatment_of(
                pcg_draw(old(stream).seed_spec(), old(stream).history().push(100)),
            )
            &&& final(stream).seed_spec() == old(stream).seed_spec()
            &&& final(stream).history() == old(stream).history().push(100)
        },
{
    if index == override_index {
        Treatment::Photo
    } else {
        let d = stream.next_below(100);
        resolve_treatment(d)
    }
}

} // verus!
