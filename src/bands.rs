use vstd::prelude::*;

verus! {

/// The band of a bin: the lowest band whose upper edge the bin does not
/// exceed, or the last band for a bin above every edge.
///
/// `rank` is the number of band edges that lie strictly below the bin's
/// frequency; with ascending edges, the bin exceeds edge `c` exactly when
/// `c < rank`, so the lowest edge it does not exceed is edge `rank`.
pub open spec fn band_for_rank(rank: nat, num_bands: nat) -> nat {
    if rank < num_bands {
        rank
    } else {
        (num_bands - 1) as nat
    }
}

/// Ranks of bins taken in ascending frequency order never decrease.
pub open spec fn ascending(ranks: Seq<usize>) -> bool {
    forall|i: int, j: int| 0 <= i <= j < ranks.len() ==> ranks[i] <= ranks[j]
}

/// Assigns each spectral bin, in ascending frequency order, to a band.
///
/// `ranks[i]` counts the band edges strictly below bin `i`'s frequency.
/// Bin `i` goes to band `min(ranks[i], num_bands - 1)`. The scan makes one
/// pass and never moves back to an earlier band.
pub fn assign_bands(ranks: &Vec<usize>, num_bands: usize) -> (r: Vec<usize>)
    requires
        num_bands >= 1,
        ascending(ranks@),
    ensures
        r@.len() == ranks@.len(),
        forall|i: int|
            0 <= i < ranks@.len() ==> #[trigger] r@[i] as nat == band_for_rank(
                ranks@[i] as nat,
                num_bands as nat,
            ),
{
    let mut r: Vec<usize> = Vec::with_capacity(ranks.len());
    let mut current: usize = 0;
    let mut i: usize = 0;
    while i < ranks.len()
        invariant
            num_bands >= 1,
            ascending(ranks@),
            i <= ranks@.len(),
            r@.len() == i,
            current < num_bands,
            i == 0 ==> current == 0,
            i > 0 ==> current as nat == band_for_rank(ranks@[i - 1] as nat, num_bands as nat),
            forall|k: int|
                0 <= k < i ==> #[trigger] r@[k] as nat == band_for_rank(
                    ranks@[k] as nat,
                    num_bands as nat,
                ),
        decreases ranks@.len() - i,
    {
        let rank = ranks[i];
        if i > 0 {
            assert(ranks@[i - 1] <= ranks@[i as int]);
        }
        while current + 1 < num_bands && current < rank
            invariant
                current < num_bands,
                current as nat <= band_for_rank(rank as nat, num_bands as nat),
            decreases num_bands - current,
        {
            current = current + 1;
        }
        r.push(current);
        i = i + 1;
    }
    r
}

/// Makes the band array hold exactly `num_bands` values.
///
/// When the configured count changed, every value is reset to `zero`, so no
/// smoothing history survives a reconfiguration; otherwise nothing changes.
pub fn reset_bands<T: Copy>(bins: &mut Vec<T>, num_bands: usize, zero: T)
    ensures
        final(bins)@.len() == num_bands,
        old(bins)@.len() == num_bands ==> final(bins)@ == old(bins)@,
        old(bins)@.len() != num_bands ==> forall|i: int|
            0 <= i < num_bands ==> #[trigger] final(bins)@[i] == zero,
{
    if bins.len() == num_bands {
        return;
    }
    let mut fresh: Vec<T> = Vec::with_capacity(num_bands);
    let mut i: usize = 0;
    while i < num_bands
        invariant
            i <= num_bands,
            fresh@.len() == i,
            forall|k: int| 0 <= k < i ==> #[trigger] fresh@[k] == zero,
        decreases num_bands - i,
    {
        fresh.push(zero);
        i = i + 1;
    }
    *bins = fresh;
}

/// Index ranges of the coarse groups over `num_bands` bands: bass is the
/// first quarter, mid the following half, treble the last quarter
/// (each as a half-open `(start, end)` pair).
pub struct BandGroups {
    pub bass: (usize, usize),
    pub mid: (usize, usize),
    pub treble: (usize, usize),
}

pub fn band_groups(num_bands: usize) -> (g: BandGroups)
    ensures
        g.bass == (0usize, (num_bands / 4) as usize),
        g.mid == ((num_bands / 4) as usize, (num_bands / 4 + num_bands / 2) as usize),
        g.treble.0 == 3 * num_bands / 4,
        g.treble.1 == num_bands,
        g.mid.1 <= num_bands,
        g.treble.0 <= num_bands,
{
    let q = num_bands / 4;
    let h = num_bands / 2;
    let t = num_bands - (q + if num_bands % 4 == 0 {
        0
    } else {
        1
    });
    BandGroups { bass: (0, q), mid: (q, q + h), treble: (t, num_bands) }
}

} // verus!
