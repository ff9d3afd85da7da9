//! Harmonic peak extraction around the dominant bin.
//!
//! Starting from the dominant bin, a symmetric window of 25 bins on each
//! side is searched.  Five rounds per side pick the largest magnitude not
//! yet selected; below the dominant bin the whole window stays in play,
//! above it each accepted peak advances the lower edge of the search span,
//! so later peaks lie strictly beyond earlier ones.  Only positive
//! magnitudes are accepted.  The collected bin indices — always including
//! the dominant bin itself — are returned sorted strictly ascending, an
//! order that display and serialization rely on.

use vstd::prelude::*;
use vstd::seq_lib::group_to_multiset_ensures;

use crate::constants::SPECTRUM_LENGTH;
use crate::peaks::bin_freq_mhz;
use crate::peaks::bin_frequency_mhz;

verus! {

/// The first index in `[lo, hi)` carrying the largest magnitude among
/// indices not yet chosen; `None` when every index there is chosen (or the
/// range is empty).
pub open spec fn best_in(mags: Seq<u32>, lo: int, hi: int, chosen: Seq<usize>) -> Option<(int, u32)>
    decreases hi - lo,
{
    if lo >= hi {
        None
    } else {
        let rest = best_in(mags, lo + 1, hi, chosen);
        if chosen.contains(lo as usize) {
            rest
        } else {
            match rest {
                None => Some((lo, mags[lo])),
                Some(p) => if mags[lo] as int >= p.1 as int {
                    Some((lo, mags[lo]))
                } else {
                    rest
                },
            }
        }
    }
}

/// One selection round below the dominant bin: the best remaining candidate
/// in `[start, dom)` is appended if its magnitude is positive.
pub open spec fn lower_step(mags: Seq<u32>, start: int, dom: int, chosen: Seq<usize>) -> Seq<
    usize,
> {
    match best_in(mags, start, dom, chosen) {
        None => chosen,
        Some(p) => if p.1 as int > 0 {
            chosen.push(p.0 as usize)
        } else {
            chosen
        },
    }
}

/// `rounds` selection rounds below the dominant bin.
pub open spec fn lower_rounds(
    mags: Seq<u32>,
    start: int,
    dom: int,
    chosen: Seq<usize>,
    rounds: int,
) -> Seq<usize>
    decreases rounds,
{
    if rounds <= 0 {
        chosen
    } else {
        lower_rounds(mags, start, dom, lower_step(mags, start, dom, chosen), rounds - 1)
    }
}

/// One selection round above the dominant bin, on state `(chosen, cur)`:
/// the best remaining candidate in `(cur, end]` is appended if its
/// magnitude is positive, and becomes the new lower edge.
pub open spec fn upper_step(mags: Seq<u32>, end: int, st: (Seq<usize>, int)) -> (Seq<usize>, int) {
    match best_in(mags, st.1 + 1, end + 1, st.0) {
        None => st,
        Some(p) => if p.1 as int > 0 {
            (st.0.push(p.0 as usize), p.0)
        } else {
            st
        },
    }
}

/// `rounds` selection rounds above the dominant bin.
pub open spec fn upper_rounds(mags: Seq<u32>, end: int, st: (Seq<usize>, int), rounds: int) -> (
    Seq<usize>,
    int,
)
    decreases rounds,
{
    if rounds <= 0 {
        st
    } else {
        upper_rounds(mags, end, upper_step(mags, end, st), rounds - 1)
    }
}

/// Lower edge of the harmonic search window.
pub open spec fn scan_window_lo(dom: int) -> int {
    if dom >= 25 {
        dom - 25
    } else {
        0
    }
}

/// Upper edge of the harmonic search window.
pub open spec fn scan_window_hi(len: int, dom: int) -> int {
    if dom + 25 < len {
        dom + 25
    } else {
        len - 1
    }
}

/// The harmonic peak indices of a spectrum, in selection order: the
/// dominant bin, then up to five picks below it, then up to five above.
pub open spec fn peak_indices(mags: Seq<u32>, dom: int) -> Seq<usize> {
    let start = scan_window_lo(dom);
    let end = scan_window_hi(mags.len() as int, dom);
    let lower = lower_rounds(mags, start, dom, seq![dom as usize], 5);
    upper_rounds(mags, end, (lower, dom), 5).0
}

/// Extending the range by one index on the right changes the best candidate
/// only if that index is unchosen and strictly better.
proof fn lemma_best_in_snoc(mags: Seq<u32>, lo: int, hi: int, chosen: Seq<usize>)
    requires
        lo < hi,
    ensures
        best_in(mags, lo, hi, chosen) == ({
            let prev = best_in(mags, lo, hi - 1, chosen);
            if chosen.contains((hi - 1) as usize) {
                prev
            } else {
                match prev {
                    None => Some((hi - 1, mags[hi - 1])),
                    Some(p) => if mags[hi - 1] as int > p.1 as int {
                        Some((hi - 1, mags[hi - 1]))
                    } else {
                        prev
                    },
                }
            }
        }),
    decreases hi - lo,
{
    reveal_with_fuel(best_in, 3);
    if lo + 1 < hi {
        lemma_best_in_snoc(mags, lo + 1, hi, chosen);
    }
}

/// What the best candidate guarantees: it lies in range, is not chosen,
/// carries its own magnitude, and no unchosen index in range beats it;
/// `None` only when everything in range is chosen.
proof fn lemma_best_in_props(mags: Seq<u32>, lo: int, hi: int, chosen: Seq<usize>)
    requires
        0 <= lo,
        hi <= mags.len(),
    ensures
        match best_in(mags, lo, hi, chosen) {
            None => forall|j: int| lo <= j < hi ==> chosen.contains(#[trigger] (j as usize)),
            Some(p) => lo <= p.0 < hi && !chosen.contains(p.0 as usize) && mags[p.0] == p.1
                && forall|j: int|
                lo <= j < hi && !chosen.contains(j as usize) ==> mags[j] as int <= p.1 as int,
        },
    decreases hi - lo,
{
    if lo < hi {
        lemma_best_in_props(mags, lo + 1, hi, chosen);
    }
}

/// Peeling one round off the back of the lower selection.
proof fn lemma_lower_rounds_snoc(mags: Seq<u32>, start: int, dom: int, chosen: Seq<usize>, r: int)
    requires
        r >= 0,
    ensures
        lower_rounds(mags, start, dom, chosen, r + 1) == lower_step(mags, start, dom, lower_rounds(mags, start, dom, chosen, r)),
    decreases r,
{
    let s1 = lower_step(mags, start, dom, chosen);
    assert(lower_rounds(mags, start, dom, chosen, r + 1) == lower_rounds(mags, start, dom, s1, r));
    if r == 0 {
        assert(lower_rounds(mags, start, dom, s1, 0) == s1);
        assert(lower_rounds(mags, start, dom, chosen, 0) == chosen);
    } else {
        lemma_lower_rounds_snoc(mags, start, dom, s1, r - 1);
        assert(lower_rounds(mags, start, dom, chosen, r) == lower_rounds(mags, start, dom, s1, r - 1));
    }
}

/// Peeling one round off the back of the upper selection.
proof fn lemma_upper_rounds_snoc(mags: Seq<u32>, end: int, st: (Seq<usize>, int), r: int)
    requires
        r >= 0,
    ensures
        upper_rounds(mags, end, st, r + 1) == upper_step(mags, end, upper_rounds(mags, end, st, r)),
    decreases r,
{
    let s1 = upper_step(mags, end, st);
    assert(upper_rounds(mags, end, st, r + 1) == upper_rounds(mags, end, s1, r));
    if r == 0 {
        assert(upper_rounds(mags, end, s1, 0) == s1);
        assert(upper_rounds(mags, end, st, 0) == st);
    } else {
        lemma_upper_rounds_snoc(mags, end, s1, r - 1);
        assert(upper_rounds(mags, end, st, r) == upper_rounds(mags, end, s1, r - 1));
    }
}

/// The lower selection only appends: the previous choices stay a prefix,
/// at most one index per round is added, and every added index lies in
/// `[start, dom)`, has positive magnitude, and was not present before it.
proof fn lemma_lower_rounds_props(mags: Seq<u32>, start: int, dom: int, chosen: Seq<usize>, r: int)
    requires
        0 <= start,
        dom <= mags.len(),
        mags.len() <= usize::MAX,
        r >= 0,
    ensures
        ({
            let res = lower_rounds(mags, start, dom, chosen, r);
            &&& chosen.is_prefix_of(res)
            &&& res.len() <= chosen.len() + r
            &&& forall|i: int|
                chosen.len() <= i < res.len() ==> start <= res[i] < dom && mags[res[i] as int] > 0
                    && !res.take(i).contains(res[i])
        }),
    decreases r,
{
    let res = lower_rounds(mags, start, dom, chosen, r);
    if r > 0 {
        let next = lower_step(mags, start, dom, chosen);
        assert(res == lower_rounds(mags, start, dom, next, r - 1));
        lemma_best_in_props(mags, start, dom, chosen);
        lemma_lower_rounds_props(mags, start, dom, next, r - 1);
        assert(chosen.is_prefix_of(next));
        if next.len() > chosen.len() {
            assert(next.take(chosen.len() as int) =~= chosen);
        }
        assert(chosen.is_prefix_of(res));
        assert forall|i: int|
            chosen.len() <= i < res.len() implies start <= res[i] < dom && mags[res[i] as int] > 0
                && !res.take(i).contains(res[i]) by {
            if i < next.len() {
                // the round picked a candidate, so next == chosen.push(p.0)
                // for a positive, unchosen, in-window best candidate p
                assert(i == chosen.len());
                assert(next.is_prefix_of(res));
                assert(res[i] == next[i]);
                assert(res.take(i) =~= next.take(i));
                assert(next.take(i) =~= chosen);
            }
        }
    }
}

/// The upper selection only appends: previous choices stay a prefix, the
/// lower edge never moves left of where it was nor past `end`, and every
/// added index lies in `(cur, end]`, has positive magnitude, and was not
/// present before it.
proof fn lemma_upper_rounds_props(mags: Seq<u32>, end: int, st: (Seq<usize>, int), r: int)
    requires
        0 <= st.1,
        st.1 <= end,
        end < mags.len(),
        mags.len() <= usize::MAX,
        r >= 0,
    ensures
        ({
            let res = upper_rounds(mags, end, st, r);
            &&& st.0.is_prefix_of(res.0)
            &&& res.0.len() <= st.0.len() + r
            &&& st.1 <= res.1 <= end
            &&& forall|i: int|
                st.0.len() <= i < res.0.len() ==> st.1 < res.0[i] <= end && mags[res.0[i] as int]
                    > 0 && !res.0.take(i).contains(res.0[i])
        }),
    decreases r,
{
    let res = upper_rounds(mags, end, st, r);
    if r > 0 {
        let next = upper_step(mags, end, st);
        assert(res == upper_rounds(mags, end, next, r - 1));
        lemma_best_in_props(mags, st.1 + 1, end + 1, st.0);
        lemma_upper_rounds_props(mags, end, next, r - 1);
        assert(st.0.is_prefix_of(next.0));
        if next.0.len() > st.0.len() {
            assert(next.0.take(st.0.len() as int) =~= st.0);
        }
        assert(st.0.is_prefix_of(res.0));
        assert forall|i: int|
            st.0.len() <= i < res.0.len() implies st.1 < res.0[i] <= end && mags[res.0[i] as int]
                > 0 && !res.0.take(i).contains(res.0[i]) by {
            if i < next.0.len() {
                // the round picked a candidate, so next.0 == st.0.push(p.0)
                // for a positive, unchosen best candidate p in (cur, end]
                assert(i == st.0.len());
                assert(next.0.is_prefix_of(res.0));
                assert(res.0[i] == next.0[i]);
                assert(res.0.take(i) =~= next.0.take(i));
                assert(next.0.take(i) =~= st.0);
            }
        }
    }
}

/// Inserting anywhere in a sequence adds exactly that element to its
/// multiset.
proof fn lemma_insert_to_multiset(s: Seq<usize>, pos: int, x: usize)
    requires
        0 <= pos <= s.len(),
    ensures
        s.insert(pos, x).to_multiset() == s.to_multiset().insert(x),
{
    broadcast use group_to_multiset_ensures;

    let t = s.insert(pos, x);
    s.insert_ensures(pos, x);
    t.remove_ensures(pos);
    assert(t.remove(pos) =~= s);
    assert(t[pos] == x);
    assert(t.contains(x));
    assert(s.to_multiset() =~= t.to_multiset().remove(x));
    assert(t.to_multiset() =~= s.to_multiset().insert(x));
}

/// Whether a sequence of indices is sorted (non-strictly).
pub open spec fn sorted(s: Seq<usize>) -> bool {
    forall|i: int, j: int| 0 <= i < j < s.len() ==> s[i] <= s[j]
}

/// Whether membership in a vector, checked linearly.
fn contains_idx(v: &Vec<usize>, x: usize) -> (b: bool)
    ensures
        b == v@.contains(x),
{
    let mut i: usize = 0;
    while i < v.len()
        invariant
            i <= v@.len(),
            forall|j: int| 0 <= j < i ==> v@[j] != x,
        decreases v@.len() - i,
    {
        if v[i] == x {
            return true;
        }
        i = i + 1;
    }
    false
}

/// Finds the first not-yet-chosen bin of largest magnitude in `[lo, hi)`.
fn best_candidate(mags: &Vec<u32>, lo: usize, hi: usize, chosen: &Vec<usize>) -> (r: Option<
    (usize, u32),
>)
    requires
        lo <= hi,
        hi <= mags@.len(),
    ensures
        match r {
            None => best_in(mags@, lo as int, hi as int, chosen@) is None,
            Some(p) => best_in(mags@, lo as int, hi as int, chosen@) == Some((p.0 as int, p.1)),
        },
{
    let mut cur: Option<(usize, u32)> = None;
    let mut j: usize = lo;
    while j < hi
        invariant
            lo <= j <= hi,
            hi <= mags@.len(),
            match cur {
                None => best_in(mags@, lo as int, j as int, chosen@) is None,
                Some(p) => best_in(mags@, lo as int, j as int, chosen@) == Some((p.0 as int, p.1)),
            },
        decreases hi - j,
    {
        proof {
            lemma_best_in_snoc(mags@, lo as int, j as int + 1, chosen@);
        }
        if !contains_idx(chosen, j) {
            match cur {
                None => {
                    cur = Some((j, mags[j]));
                },
                Some(p) => {
                    if mags[j] > p.1 {
                        cur = Some((j, mags[j]));
                    }
                },
            }
        }
        j = j + 1;
    }
    cur
}

/// Sorts a vector of indices ascending by repeated insertion, keeping
/// exactly the same elements.
fn sort_indices(v: &Vec<usize>) -> (r: Vec<usize>)
    ensures
        r@.to_multiset() == v@.to_multiset(),
        sorted(r@),
        r@.len() == v@.len(),
{
    broadcast use group_to_multiset_ensures;

    let mut out: Vec<usize> = Vec::new();
    let mut i: usize = 0;
    proof {
        assert(v@.take(0) =~= Seq::<usize>::empty());
    }
    while i < v.len()
        invariant
            i <= v@.len(),
            out@.len() == i,
            out@.to_multiset() == v@.take(i as int).to_multiset(),
            sorted(out@),
        decreases v@.len() - i,
    {
        broadcast use group_to_multiset_ensures;

        let x: usize = v[i];
        let mut pos: usize = 0;
        while pos < out.len() && out[pos] <= x
            invariant
                pos <= out@.len(),
                forall|j: int| 0 <= j < pos ==> out@[j] <= x,
            decreases out@.len() - pos,
        {
            pos = pos + 1;
        }
        let ghost old_out = out@;
        out.insert(pos, x);
        proof {
            lemma_insert_to_multiset(old_out, pos as int, x);
            assert(v@.take(i as int + 1) =~= v@.take(i as int).push(x));
            old_out.insert_ensures(pos as int, x);
            assert forall|a: int, b: int| 0 <= a < b < out@.len() implies out@[a] <= out@[b] by {
                if b < pos {
                } else if a > pos {
                } else if a == pos && b > pos {
                    assert(out@[b] == old_out[b - 1]);
                } else if b == pos {
                    assert(out@[a] == old_out[a]);
                } else {
                    // a < pos < b
                    assert(out@[a] == old_out[a] && out@[b] == old_out[b - 1]);
                }
            }
        }
        i = i + 1;
    }
    proof {
        assert(v@.take(v@.len() as int) =~= v@);
    }
    out
}

/// Extracts the harmonic peak indices around the dominant bin and returns
/// them sorted strictly ascending.  The dominant bin is always included;
/// every other selected bin lies within 25 bins of it and carries a
/// positive magnitude; there are at most eleven in all.
pub fn find_peaks(magnitudes: &Vec<u32>, dominant_index: usize) -> (r: Vec<usize>)
    requires
        magnitudes@.len() == SPECTRUM_LENGTH,
        dominant_index < SPECTRUM_LENGTH,
    ensures
        r@.to_multiset() == peak_indices(magnitudes@, dominant_index as int).to_multiset(),
        forall|i: int, j: int| 0 <= i < j < r@.len() ==> r@[i] < r@[j],
        r@.contains(dominant_index),
        r@.len() <= 11,
        forall|i: int|
            0 <= i < r@.len() ==> scan_window_lo(dominant_index as int) <= #[trigger] r@[i] as int
                <= scan_window_hi(SPECTRUM_LENGTH as int, dominant_index as int),
        forall|i: int|
            0 <= i < r@.len() && #[trigger] r@[i] != dominant_index ==> magnitudes@[r@[i] as int] > 0,
{
    broadcast use group_to_multiset_ensures;

    let ghost dom = dominant_index as int;
    let start: usize = if dominant_index >= 25 {
        dominant_index - 25
    } else {
        0
    };
    let end: usize = if dominant_index + 25 < SPECTRUM_LENGTH {
        dominant_index + 25
    } else {
        SPECTRUM_LENGTH - 1
    };
    let mut result: Vec<usize> = Vec::new();
    result.push(dominant_index);
    let ghost init = result@;
    proof {
        assert(init =~= seq![dominant_index]);
    }

    let mut round: usize = 0;
    while round < 5
        invariant
            magnitudes@.len() == SPECTRUM_LENGTH,
            dominant_index < SPECTRUM_LENGTH,
            start as int == scan_window_lo(dom),
            dom == dominant_index as int,
            init == seq![dominant_index],
            round <= 5,
            result@ == lower_rounds(magnitudes@, start as int, dom, init, round as int),
        decreases 5 - round,
    {
        let best = best_candidate(magnitudes, start, dominant_index, &result);
        proof {
            lemma_lower_rounds_snoc(magnitudes@, start as int, dom, init, round as int);
        }
        match best {
            Some(p) => {
                if p.1 > 0 {
                    result.push(p.0);
                }
            },
            None => {},
        }
        round = round + 1;
    }
    let ghost lower_final = result@;

    let mut cur: usize = dominant_index;
    let mut round2: usize = 0;
    while round2 < 5
        invariant
            magnitudes@.len() == SPECTRUM_LENGTH,
            dominant_index < SPECTRUM_LENGTH,
            end as int == scan_window_hi(SPECTRUM_LENGTH as int, dom),
            dom == dominant_index as int,
            round2 <= 5,
            dominant_index <= cur && cur <= end,
            end < SPECTRUM_LENGTH,
            (result@, cur as int) == upper_rounds(
                magnitudes@,
                end as int,
                (lower_final, dom),
                round2 as int,
            ),
        decreases 5 - round2,
    {
        let best = best_candidate(magnitudes, cur + 1, end + 1, &result);
        proof {
            lemma_upper_rounds_snoc(magnitudes@, end as int, (lower_final, dom), round2 as int);
            lemma_best_in_props(magnitudes@, cur as int + 1, end as int + 1, result@);
        }
        match best {
            Some(p) => {
                if p.1 > 0 {
                    result.push(p.0);
                    cur = p.0;
                }
            },
            None => {},
        }
        round2 = round2 + 1;
    }

    proof {
        lemma_lower_rounds_props(magnitudes@, start as int, dom, init, 5);
        lemma_upper_rounds_props(magnitudes@, end as int, (lower_final, dom), 5);
        assert(result@ == peak_indices(magnitudes@, dom));
        assert(init.is_prefix_of(lower_final));
        assert(lower_final.is_prefix_of(result@));
        assert(lower_final[0] == init[0]);
        assert(result@[0] == lower_final[0]);
        assert(result@[0] == dominant_index);
        // every element is the dominant bin or a selected peak with its
        // window and positivity guarantees
        assert forall|i: int|
            0 <= i < result@.len() implies scan_window_lo(dom) <= result@[i] as int
                <= scan_window_hi(SPECTRUM_LENGTH as int, dom) && (result@[i] != dominant_index
                ==> magnitudes@[result@[i] as int] > 0) by {
            if i == 0 {
            } else if i < lower_final.len() {
                assert(result@[i] == lower_final[i]);
            }
        }
        // no index is selected twice
        assert forall|a: int, b: int| 0 <= a < b < result@.len() implies result@[a] != result@[b] by {
            if b < lower_final.len() {
                assert(result@.take(b) =~= lower_final.take(b));
                assert(!lower_final.take(b).contains(lower_final[b]));
                assert(result@.take(b)[a] == result@[a]);
            } else {
                assert(!result@.take(b).contains(result@[b]));
                assert(result@.take(b)[a] == result@[a]);
            }
        }
        assert(result@.no_duplicates());
    }

    let sorted_result = sort_indices(&result);
    proof {
        result@.lemma_multiset_has_no_duplicates();
        sorted_result@.lemma_multiset_has_no_duplicates_conv();
        assert(sorted_result@.no_duplicates());
        assert forall|i: int, j: int|
            0 <= i < j < sorted_result@.len() implies sorted_result@[i] < sorted_result@[j] by {
            assert(sorted_result@[i] <= sorted_result@[j]);
        }
        assert(result@.contains(dominant_index));
        assert(sorted_result@.to_multiset().count(dominant_index) > 0);
        assert(sorted_result@.contains(dominant_index));
        assert forall|i: int|
            0 <= i < sorted_result@.len() implies scan_window_lo(dom) <= sorted_result@[i] as int
                <= scan_window_hi(SPECTRUM_LENGTH as int, dom) && (sorted_result@[i]
                != dominant_index ==> magnitudes@[sorted_result@[i] as int] > 0) by {
            let v = sorted_result@[i];
            assert(sorted_result@.contains(v));
            assert(sorted_result@.to_multiset().count(v) > 0);
            assert(result@.contains(v));
            let j = choose|j: int| 0 <= j < result@.len() && result@[j] == v;
            assert(scan_window_lo(dom) <= result@[j] as int <= scan_window_hi(
                SPECTRUM_LENGTH as int, dom) && (result@[j] != dominant_index
                ==> magnitudes@[result@[j] as int] > 0));
        }
    }
    sorted_result
}

/// One detected harmonic peak: its bin, the bin's centre frequency in
/// millihertz, and its magnitude in micro units.
#[derive(Clone, Copy, PartialEq, Eq, Debug)]
pub struct PeakData {
    pub index: usize,
    pub frequency: u32,
    pub magnitude: u32,
}

/// Whether a peak list faithfully describes bins of a spectrum, strictly
/// ascending by bin index and including bin `dom`.
pub open spec fn peaks_describe(peaks: Seq<PeakData>, mags: Seq<u32>, dom: int) -> bool {
    &&& forall|i: int, j: int| 0 <= i < j < peaks.len() ==> peaks[i].index < peaks[j].index
    &&& exists|i: int| 0 <= i < peaks.len() && peaks[i].index as int == dom
    &&& forall|i: int|
        0 <= i < peaks.len() ==> peaks[i].index < mags.len() && peaks[i].magnitude == mags[peaks[i].index as int]
            && peaks[i].frequency as int == bin_freq_mhz(peaks[i].index as int)
    &&& peaks.len() <= 11
}

/// Fills in frequency and magnitude for each selected peak index.
pub fn build_peak_data(magnitudes: &Vec<u32>, indices: &Vec<usize>) -> (peaks: Vec<PeakData>)
    requires
        magnitudes@.len() == SPECTRUM_LENGTH,
        forall|i: int| 0 <= i < indices@.len() ==> indices@[i] < SPECTRUM_LENGTH,
    ensures
        peaks@.len() == indices@.len(),
        forall|i: int|
            0 <= i < peaks@.len() ==> peaks@[i].index == indices@[i] && peaks@[i].magnitude
                == magnitudes@[indices@[i] as int] && peaks@[i].frequency as int == bin_freq_mhz(
                indices@[i] as int),
{
    let mut peaks: Vec<PeakData> = Vec::new();
    let mut i: usize = 0;
    while i < indices.len()
        invariant
            magnitudes@.len() == SPECTRUM_LENGTH,
            forall|k: int| 0 <= k < indices@.len() ==> indices@[k] < SPECTRUM_LENGTH,
            i <= indices@.len(),
            peaks@.len() == i,
            forall|k: int|
                0 <= k < i ==> peaks@[k].index == indices@[k] && peaks@[k].magnitude
                    == magnitudes@[indices@[k] as int] && peaks@[k].frequency as int
                    == bin_freq_mhz(indices@[k] as int),
        decreases indices@.len() - i,
    {
        let idx: usize = indices[i];
        let freq: u32 = bin_frequency_mhz(idx);
        peaks.push(PeakData { index: idx, frequency: freq, magnitude: magnitudes[idx] });
        i = i + 1;
    }
    peaks
}

} // verus!
