//! Frame-quality statistics: the ranked, ranged and smoothed views of the
//! quality scores of one analysis run.
//!
//! A score is held as its key: an unsigned number that orders as the scores
//! do, so that a higher key is a higher score and equal keys are one score.
//! The caller maps its scores to keys and back. What depends on the order
//! alone is computed here on the keys. Of the moving average the series gives
//! the window of each frame; the mean over a window is the caller's.

use vstd::prelude::*;
use vstd::seq_lib::{lemma_multiset_commutative, to_multiset_build};

verus! {

/// The lowest and the highest score of a series.
#[derive(Debug, Clone, Copy, PartialEq, Eq, Structural)]
pub struct AnalysisRange {
    pub min: u64,
    pub max: u64,
}

/// The frames `start..end` over which a moving average takes its mean.
#[derive(Debug, Clone, Copy, PartialEq, Eq, Structural)]
pub struct SmaWindow {
    pub start: usize,
    pub end: usize,
}

/// The scores of the frames that an analysis run kept, in the order in which
/// the frames were processed.
#[derive(Debug)]
pub struct AnalysisSeries {
    sigma_list: Vec<u64>,
}

impl View for AnalysisSeries {
    type V = Seq<u64>;

    closed spec fn view(&self) -> Seq<u64> {
        self.sigma_list@
    }
}

/// Whether no score of `scores` is followed by a higher one.
pub open spec fn descending(scores: Seq<u64>) -> bool {
    forall|i: int, j: int| 0 <= i <= j < scores.len() ==> scores[i] >= scores[j]
}

/// Whether `score` lies within the limits. A limit that is `None` is no
/// limit.
pub open spec fn within_limits(score: u64, min_sigma: Option<u64>, max_sigma: Option<u64>) -> bool {
    &&& min_sigma matches Some(min) ==> score >= min
    &&& max_sigma matches Some(max) ==> score <= max
}

/// The window of frame `i` in a series of `n` frames, for a moving average
/// of width `window`.
///
/// With the half width `h = window / 2` the window is `[i - h, i + h)`, cut to
/// the series: it ends before frame `i + h`, so that it holds `2 * h` frames
/// where nothing is cut, not `2 * h + 1`. A half width of 0 gives the frame
/// alone.
pub open spec fn window_of(n: nat, i: nat, window: nat) -> (int, int) {
    let h = window as int / 2;
    let i = i as int;
    let start = if h == 0 {
        i
    } else if i <= h {
        0
    } else {
        i - h
    };
    let end = if h == 0 {
        i + 1
    } else if i + h <= n {
        i + h
    } else {
        n as int
    };
    (start, end)
}

/// The window of every frame of a series lies within the series and holds
/// the frame or, at the series' start, the frames before its right end: it is
/// never empty, so that a mean over it never divides by zero. With a half
/// width of 0 it is the frame alone; otherwise it holds at most twice the
/// half width, and exactly that where nothing is cut.
pub proof fn lemma_window_holds_frames(n: nat, i: nat, window: nat)
    requires
        i < n,
    ensures
        ({
            let (start, end) = window_of(n, i, window);
            let h = window as int / 2;
            &&& 0 <= start <= i < end <= n
            &&& h == 0 ==> start == i && end == i + 1
            &&& h > 0 ==> end - start <= 2 * h
            &&& (h > 0 && h <= i && i + h <= n) ==> start == i - h && end == i + h
        }),
{
}

/// Merges two descending lists into one.
fn merge_descending(left: &Vec<u64>, right: &Vec<u64>) -> (merged: Vec<u64>)
    requires
        descending(left@),
        descending(right@),
    ensures
        descending(merged@),
        merged@.to_multiset() == left@.to_multiset().add(right@.to_multiset()),
{
    let mut merged: Vec<u64> = Vec::new();
    let mut i: usize = 0;
    let mut j: usize = 0;
    proof {
        assert(left@.take(0) =~= Seq::<u64>::empty());
        assert(right@.take(0) =~= Seq::<u64>::empty());
        assert(merged@ =~= Seq::<u64>::empty());
        Seq::<u64>::empty().to_multiset_ensures();
        assert(merged@.to_multiset() =~= left@.take(0).to_multiset().add(
            right@.take(0).to_multiset(),
        ));
    }
    while i < left.len() || j < right.len()
        invariant
            i <= left.len(),
            j <= right.len(),
            descending(left@),
            descending(right@),
            descending(merged@),
            merged@.to_multiset() == left@.take(i as int).to_multiset().add(
                right@.take(j as int).to_multiset(),
            ),
            forall|k: int|
                0 <= k < merged.len() ==> (i < left.len() ==> #[trigger] merged[k] >= left[i as int])
                    && (j < right.len() ==> merged[k] >= right[j as int]),
        decreases left.len() - i + right.len() - j,
    {
        let ghost before = merged@;
        if j >= right.len() || (i < left.len() && left[i] >= right[j]) {
            merged.push(left[i]);
            proof {
                to_multiset_build(before, left[i as int]);
                to_multiset_build(left@.take(i as int), left[i as int]);
                assert(left@.take(i + 1) =~= left@.take(i as int).push(left[i as int]));
                assert(merged@.to_multiset() =~= left@.take(i + 1).to_multiset().add(
                    right@.take(j as int).to_multiset(),
                ));
            }
            i = i + 1;
        } else {
            merged.push(right[j]);
            proof {
                to_multiset_build(before, right[j as int]);
                to_multiset_build(right@.take(j as int), right[j as int]);
                assert(right@.take(j + 1) =~= right@.take(j as int).push(right[j as int]));
                assert(merged@.to_multiset() =~= left@.take(i as int).to_multiset().add(
                    right@.take(j + 1).to_multiset(),
                ));
            }
            j = j + 1;
        }
    }
    proof {
        assert(left@.take(i as int) =~= left@);
        assert(right@.take(j as int) =~= right@);
    }
    merged
}

/// Sorts `list[from..to]`, highest first.
fn sort_descending(list: &Vec<u64>, from: usize, to: usize) -> (sorted: Vec<u64>)
    requires
        from <= to <= list.len(),
    ensures
        descending(sorted@),
        sorted@.to_multiset() == list@.subrange(from as int, to as int).to_multiset(),
    decreases to - from,
{
    if to - from == 0 {
        let sorted: Vec<u64> = Vec::new();
        assert(list@.subrange(from as int, to as int) =~= sorted@);
        sorted
    } else if to - from == 1 {
        let mut sorted: Vec<u64> = Vec::new();
        sorted.push(list[from]);
        assert(list@.subrange(from as int, to as int) =~= sorted@);
        sorted
    } else {
        let mid: usize = from + (to - from) / 2;
        let left = sort_descending(list, from, mid);
        let right = sort_descending(list, mid, to);
        proof {
            lemma_multiset_commutative(
                list@.subrange(from as int, mid as int),
                list@.subrange(mid as int, to as int),
            );
            assert(list@.subrange(from as int, to as int) =~= list@.subrange(
                from as int,
                mid as int,
            ) + list@.subrange(mid as int, to as int));
        }
        merge_descending(&left, &right)
    }
}

impl AnalysisSeries {
    /// The series of `sigma_list`.
    pub fn new(sigma_list: Vec<u64>) -> (series: Self)
        ensures
            series@ == sigma_list@,
    {
        AnalysisSeries { sigma_list }
    }

    /// The series of those of `scores` that lie within the limits, in their
    /// order.
    pub fn within(scores: &Vec<u64>, min_sigma: Option<u64>, max_sigma: Option<u64>) -> (series:
        Self)
        ensures
            series@ == scores@.filter(|score: u64| within_limits(score, min_sigma, max_sigma)),
    {
        let ghost kept = |score: u64| within_limits(score, min_sigma, max_sigma);
        let mut sigma_list: Vec<u64> = Vec::new();
        let mut i: usize = 0;
        proof {
            assert(scores@.take(0) =~= Seq::<u64>::empty());
            assert(Seq::<u64>::empty().filter(kept) =~= Seq::<u64>::empty()) by {
                reveal(Seq::filter);
            }
        }
        while i < scores.len()
            invariant
                i <= scores.len(),
                kept == (|score: u64| within_limits(score, min_sigma, max_sigma)),
                sigma_list@ == scores@.take(i as int).filter(kept),
            decreases scores.len() - i,
        {
            let score = scores[i];
            let above = match min_sigma {
                Some(min) => score >= min,
                None => true,
            };
            let below = match max_sigma {
                Some(max) => score <= max,
                None => true,
            };
            proof {
                scores@.take(i as int).lemma_filter_push(score, kept);
                assert(scores@.take(i + 1) =~= scores@.take(i as int).push(score));
                assert(kept(score) == (above && below));
            }
            if above && below {
                sigma_list.push(score);
            }
            i = i + 1;
        }
        proof {
            assert(scores@.take(i as int) =~= scores@);
        }
        AnalysisSeries { sigma_list }
    }

    /// The number of scores.
    pub fn len(&self) -> (len: usize)
        ensures
            len == self@.len(),
    {
        self.sigma_list.len()
    }

    /// The scores in the order of the frames.
    pub fn scores(&self) -> (scores: &Vec<u64>)
        ensures
            scores@ == self@,
    {
        &self.sigma_list
    }

    /// The scores from the highest to the lowest: the same scores, each as
    /// often as the series holds it.
    pub fn sorted_list(&self) -> (sorted: Vec<u64>)
        ensures
            descending(sorted@),
            sorted@.to_multiset() == self@.to_multiset(),
            sorted@.len() == self@.len(),
    {
        let sorted = sort_descending(&self.sigma_list, 0, self.sigma_list.len());
        proof {
            assert(self.sigma_list@.subrange(0, self.sigma_list.len() as int) =~= self@);
            sorted@.to_multiset_ensures();
            self@.to_multiset_ensures();
        }
        sorted
    }

    /// The lowest and the highest score, or `None` for a series without
    /// scores.
    pub fn minmax(&self) -> (range: Option<AnalysisRange>)
        ensures
            range is None <==> self@.len() == 0,
            range matches Some(r) ==> {
                &&& self@.contains(r.min)
                &&& self@.contains(r.max)
                &&& forall|i: int| 0 <= i < self@.len() ==> r.min <= #[trigger] self@[i] <= r.max
            },
    {
        if self.sigma_list.len() == 0 {
            return None;
        }
        let mut mn: u64 = self.sigma_list[0];
        let mut mx: u64 = self.sigma_list[0];
        let mut i: usize = 1;
        while i < self.sigma_list.len()
            invariant
                1 <= i <= self.sigma_list.len(),
                exists|k: int| 0 <= k < i && self.sigma_list@[k] == mn,
                exists|k: int| 0 <= k < i && self.sigma_list@[k] == mx,
                forall|k: int| 0 <= k < i ==> mn <= #[trigger] self.sigma_list@[k] <= mx,
            decreases self.sigma_list.len() - i,
        {
            let score = self.sigma_list[i];
            if score < mn {
                mn = score;
            }
            if score > mx {
                mx = score;
            }
            i = i + 1;
        }
        Some(AnalysisRange { min: mn, max: mx })
    }

    /// The window of frame `i` for a moving average of width `window`.
    pub fn sma_window(&self, i: usize, window: usize) -> (frames: SmaWindow)
        requires
            i < self@.len(),
        ensures
            (frames.start as int, frames.end as int) == window_of(
                self@.len(),
                i as nat,
                window as nat,
            ),
    {
        let n = self.sigma_list.len();
        let half_win = window / 2;
        if half_win == 0 {
            SmaWindow { start: i, end: i + 1 }
        } else {
            let start = if i <= half_win {
                0
            } else {
                i - half_win
            };
            let end = if half_win <= n - i {
                i + half_win
            } else {
                n
            };
            SmaWindow { start, end }
        }
    }

    /// The window of every frame, in the order of the frames, for a moving
    /// average of width `window`.
    pub fn sma(&self, window: usize) -> (windows: Vec<SmaWindow>)
        ensures
            windows@.len() == self@.len(),
            forall|i: int|
                0 <= i < self@.len() ==> ((#[trigger] windows@[i]).start as int, windows@[i].end as int)
                    == window_of(self@.len(), i as nat, window as nat),
    {
        let mut windows: Vec<SmaWindow> = Vec::new();
        let mut i: usize = 0;
        while i < self.sigma_list.len()
            invariant
                i <= self.sigma_list.len(),
                windows@.len() == i,
                forall|k: int|
                    0 <= k < i ==> ((#[trigger] windows@[k]).start as int, windows@[k].end as int)
                        == window_of(self@.len(), k as nat, window as nat),
            decreases self.sigma_list.len() - i,
        {
            let frames = self.sma_window(i, window);
            windows.push(frames);
            i = i + 1;
        }
        windows
    }
}

} // verus!
