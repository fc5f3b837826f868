//! The histogram tab: which window of the value axis is shown, how bins merge
//! into a step curve, and which display-range line the pointer grabs.

use crate::display;
use crate::layout::{HistXRange, ScaleMode};
use vstd::prelude::*;

verus! {

/// How many steps a curve aims for.
pub const TARGET_STEPS: usize = 300;

/// A run of neighboring bins drawn as one step.
#[derive(Clone, Copy, PartialEq, Eq, Structural, Debug)]
pub struct Step {
    /// First bin of the run.
    pub from: usize,
    /// The bin behind its last.
    pub to: usize,
    /// Pixels counted in the run.
    pub count: u64,
}

/// The sum of some counts.
pub open spec fn total(counts: Seq<u64>) -> int
    decreases counts.len(),
{
    if counts.len() == 0 {
        0
    } else {
        total(counts.drop_last()) + counts.last()
    }
}

/// How many bins go into one step of a window of `n` bins.
pub open spec fn run_length(n: int) -> int {
    if n / TARGET_STEPS as int > 1 {
        n / TARGET_STEPS as int
    } else {
        1
    }
}

/// The smaller of two numbers.
pub open spec fn least(a: int, b: int) -> int {
    if a < b {
        a
    } else {
        b
    }
}

/// Cuts the bins from `from` to `to` into runs of `k`, of which the last may be
/// shorter.
pub open spec fn runs(counts: Seq<u64>, from: int, to: int, k: int) -> Seq<(int, int, int)>
    decreases to - from,
{
    if from >= to || k <= 0 {
        Seq::empty()
    } else {
        let end = least(from + k, to);
        seq![(from, end, total(counts.subrange(from, end)))] + runs(counts, end, to, k)
    }
}

/// The steps as plain numbers.
pub open spec fn step_values(steps: Seq<Step>) -> Seq<(int, int, int)> {
    steps.map_values(|s: Step| (s.from as int, s.to as int, s.count as int))
}

/// The sum over two neighboring ranges is the sum of their sums.
pub proof fn lemma_total_split(counts: Seq<u64>, a: int, b: int, c: int)
    requires
        0 <= a <= b <= c <= counts.len(),
    ensures
        total(counts.subrange(a, c)) == total(counts.subrange(a, b)) + total(
            counts.subrange(b, c),
        ),
    decreases c - b,
{
    if b == c {
        assert(counts.subrange(b, c) =~= Seq::<u64>::empty());
    } else {
        lemma_total_split(counts, a, b, c - 1);
        assert(counts.subrange(a, c).drop_last() =~= counts.subrange(a, c - 1));
        assert(counts.subrange(b, c).drop_last() =~= counts.subrange(b, c - 1));
    }
}

/// Counts add up to no less than nothing.
pub proof fn lemma_total_positive(counts: Seq<u64>)
    ensures
        total(counts) >= 0,
    decreases counts.len(),
{
    if counts.len() > 0 {
        lemma_total_positive(counts.drop_last());
    }
}

/// The counts of the steps.
pub open spec fn run_total(steps: Seq<(int, int, int)>) -> int
    decreases steps.len(),
{
    if steps.len() == 0 {
        0
    } else {
        steps[0].2 + run_total(steps.skip(1))
    }
}

/// Merging loses no pixel: the steps of a window count what its bins count.
pub proof fn law_merging_keeps_the_count(counts: Seq<u64>, from: int, to: int, k: int)
    requires
        0 <= from <= to <= counts.len(),
        k > 0,
    ensures
        run_total(runs(counts, from, to, k)) == total(counts.subrange(from, to)),
    decreases to - from,
{
    if from >= to {
        assert(counts.subrange(from, to) =~= Seq::<u64>::empty());
    } else {
        let end = least(from + k, to);
        let rest = runs(counts, end, to, k);
        law_merging_keeps_the_count(counts, end, to, k);
        lemma_total_split(counts, from, end, to);
        assert(runs(counts, from, to, k).skip(1) =~= rest);
    }
}

/// The steps cover the window without gap or overlap.
pub proof fn law_steps_tile_the_window(counts: Seq<u64>, from: int, to: int, k: int, i: int)
    requires
        0 <= from < to <= counts.len(),
        k > 0,
        0 <= i < runs(counts, from, to, k).len(),
    ensures
        runs(counts, from, to, k)[0].0 == from,
        runs(counts, from, to, k).last().1 == to,
        runs(counts, from, to, k)[i].0 < runs(counts, from, to, k)[i].1,
        i > 0 ==> runs(counts, from, to, k)[i].0 == runs(counts, from, to, k)[i - 1].1,
    decreases to - from,
{
    let end = least(from + k, to);
    let rest = runs(counts, end, to, k);
    if end < to {
        if i == 0 {
            law_steps_tile_the_window(counts, end, to, k, 0);
        } else {
            law_steps_tile_the_window(counts, end, to, k, i - 1);
        }
    } else {
        assert(rest =~= Seq::empty());
    }
}

/// A curve has fewer than twice as many steps as it aims for, and one for each
/// bin while there are fewer than that.
pub proof fn law_steps_stay_few(counts: Seq<u64>, from: int, to: int)
    requires
        0 <= from <= to <= counts.len(),
    ensures
        runs(counts, from, to, run_length(to - from)).len() < 2 * TARGET_STEPS,
        to - from < 2 * TARGET_STEPS ==> runs(counts, from, to, run_length(to - from)).len() == to
            - from,
{
    let n = to - from;
    let k = run_length(n);
    if n < 2 * TARGET_STEPS {
        assert(k == 1);
        lemma_single_bins(counts, from, to);
    } else {
        lemma_run_count(counts, from, to, k);
        let c = runs(counts, from, to, k).len() as int;
        assert(n < 300 * k + 300);
        assert(c < 600) by (nonlinear_arith)
            requires
                (c - 1) * k < n || c == 0,
                n < 300 * k + 300,
                k >= 2,
        ;
    }
}

/// Runs of one bin are as many as the bins.
proof fn lemma_single_bins(counts: Seq<u64>, from: int, to: int)
    requires
        from <= to,
    ensures
        runs(counts, from, to, 1).len() == to - from,
    decreases to - from,
{
    if from < to {
        lemma_single_bins(counts, from + 1, to);
    }
}

/// All runs but the last are full.
proof fn lemma_run_count(counts: Seq<u64>, from: int, to: int, k: int)
    requires
        k > 0,
    ensures
        runs(counts, from, to, k).len() == 0 || (runs(counts, from, to, k).len() - 1) * k < to
            - from,
    decreases to - from,
{
    if from < to {
        let end = least(from + k, to);
        lemma_run_count(counts, end, to, k);
        let c = runs(counts, end, to, k).len() as int;
        assert(runs(counts, from, to, k).len() == c + 1);
        if c == 0 {
            assert(c * k == 0) by (nonlinear_arith)
                requires
                    c == 0,
            ;
        } else {
            assert(end == from + k);
            assert(c * k == (c - 1) * k + k) by (nonlinear_arith);
        }
    }
}

/// Merges the bins of a window into steps. `lo_bin` and `hi_bin` say where the
/// window begins and ends, in bins from the first; a window outside the
/// histogram is clipped to it, and one without a bin shows one. A histogram
/// without bins, or whose `edges` do not fit them, has no steps.
pub fn step_bins(counts: &Vec<u64>, edges: usize, lo_bin: usize, hi_bin: usize) -> (r: Vec<Step>)
    requires
        total(counts@) <= u64::MAX,
    ensures
        counts.len() == 0 || edges != counts.len() + 1 ==> r.len() == 0,
        counts.len() > 0 && edges == counts.len() + 1 ==> {
            let first = least(lo_bin as int, counts.len() - 1);
            let last = if least(hi_bin as int, counts.len() as int) > first + 1 {
                least(hi_bin as int, counts.len() as int)
            } else {
                first + 1
            };
            step_values(r@) == runs(counts@, first, last, run_length(last - first))
        },
{
    let n: usize = counts.len();
    if n == 0 || edges < 1 || edges - 1 != n {
        return Vec::new();
    }
    let first: usize = if lo_bin < n - 1 {
        lo_bin
    } else {
        n - 1
    };
    let end: usize = if hi_bin < n {
        hi_bin
    } else {
        n
    };
    let last: usize = if end > first + 1 {
        end
    } else {
        first + 1
    };
    let per: usize = (last - first) / TARGET_STEPS;
    let k: usize = if per > 1 {
        per
    } else {
        1
    };
    let ghost all = runs(counts@, first as int, last as int, k as int);
    let mut out: Vec<Step> = Vec::new();
    let mut i: usize = first;
    assert(step_values(out@) + all =~= all);
    while i < last
        invariant
            first <= i <= last <= counts.len(),
            k >= 1,
            total(counts@) <= u64::MAX,
            all == runs(counts@, first as int, last as int, k as int),
            step_values(out@) + runs(counts@, i as int, last as int, k as int) == all,
        decreases last - i,
    {
        let j: usize = if last - i > k {
            i + k
        } else {
            last
        };
        let count: u64 = sum_range(counts, i, j);
        let ghost before = out@;
        let step: Step = Step { from: i, to: j, count };
        out.push(step);
        proof {
            let head = (i as int, j as int, count as int);
            assert(step_values(out@) =~= step_values(before) + seq![head]);
            assert(runs(counts@, i as int, last as int, k as int) == seq![head] + runs(
                counts@,
                j as int,
                last as int,
                k as int,
            ));
            assert(step_values(out@) + runs(counts@, j as int, last as int, k as int) =~= all);
        }
        i = j;
    }
    assert(step_values(out@) + Seq::empty() =~= step_values(out@));
    out
}

/// The sum of the counts from `from` to `to`.
fn sum_range(counts: &Vec<u64>, from: usize, to: usize) -> (r: u64)
    requires
        from <= to <= counts.len(),
        total(counts@) <= u64::MAX,
    ensures
        r == total(counts@.subrange(from as int, to as int)),
{
    let mut sum: u64 = 0;
    assert(counts@.subrange(from as int, from as int) =~= Seq::<u64>::empty());
    for i in from..to
        invariant
            from <= to <= counts.len(),
            total(counts@) <= u64::MAX,
            sum == total(counts@.subrange(from as int, i as int)),
    {
        proof {
            assert(counts@.subrange(from as int, i + 1).drop_last() =~= counts@.subrange(
                from as int,
                i as int,
            ));
            lemma_total_split(counts@, 0, from as int, i + 1);
            lemma_total_split(counts@, 0, i + 1, counts@.len() as int);
            lemma_total_positive(counts@.subrange(0, from as int));
            lemma_total_positive(counts@.subrange(i + 1, counts@.len() as int));
            assert(counts@.subrange(0, counts@.len() as int) =~= counts@);
        }
        sum = sum + counts[i];
    }
    sum
}

// ---------------------------------------------------------------------------
// The window of the value axis

/// What the selected range asks for, before it is clipped.
pub open spec fn asked_window<F, Lo: Fn(F, F) -> F, Hi: Fn(F, F) -> F>(
    range: HistXRange,
    full: (F, F),
    data: (F, F),
    display: (F, F),
    lines: (F, F),
    manual: bool,
    lower: Lo,
    upper: Hi,
    w: (F, F),
) -> bool {
    match range {
        HistXRange::Full => w == full,
        HistXRange::Data => if manual {
            call_ensures(lower, (data.0, lines.0), w.0) && call_ensures(
                upper,
                (data.1, lines.1),
                w.1,
            )
        } else {
            w == data
        },
        HistXRange::Display => w == display,
    }
}

/// Is `w` a window clipped to the full range, or the full range itself where
/// nothing is left of it?
pub open spec fn clipped_window<
    F,
    Lo: Fn(F, F) -> F,
    Hi: Fn(F, F) -> F,
    E: Fn(F, F) -> bool,
>(asked: (F, F), full: (F, F), lower: Lo, upper: Hi, at_most: E, w: (F, F)) -> bool {
    exists|lo: F, hi: F, gone: bool|
        #![trigger call_ensures(upper, (asked.0, full.0), lo), call_ensures(lower, (asked.1, full.1), hi), call_ensures(at_most, (hi, lo), gone)]
        call_ensures(upper, (asked.0, full.0), lo) && call_ensures(lower, (asked.1, full.1), hi)
            && call_ensures(at_most, (hi, lo), gone) && w == (if gone {
            full
        } else {
            (lo, hi)
        })
}

/// The window that the plot shows, from the full range, the padded span of the
/// data, the padded display range and the display-range `lines` themselves.
/// Fitted to the data it still keeps lines that the user placed in reach. The
/// functions are the lesser and the greater of two numbers, and whether the
/// first is at most the second.
pub fn hist_window<F: Copy, Lo: Fn(F, F) -> F, Hi: Fn(F, F) -> F, E: Fn(F, F) -> bool>(
    range: HistXRange,
    full: (F, F),
    data: (F, F),
    display: (F, F),
    lines: (F, F),
    manual: bool,
    lower: Lo,
    upper: Hi,
    at_most: E,
) -> (r: (F, F))
    requires
        forall|a: F, b: F| call_requires(lower, (a, b)),
        forall|a: F, b: F| call_requires(upper, (a, b)),
        forall|a: F, b: F| call_requires(at_most, (a, b)),
    ensures
        exists|asked: (F, F)|
            asked_window(range, full, data, display, lines, manual, lower, upper, asked)
                && #[trigger] clipped_window(asked, full, lower, upper, at_most, r),
{
    let asked: (F, F) = match range {
        HistXRange::Full => full,
        HistXRange::Data => if manual {
            (lower(data.0, lines.0), upper(data.1, lines.1))
        } else {
            data
        },
        HistXRange::Display => display,
    };
    let lo: F = upper(asked.0, full.0);
    let hi: F = lower(asked.1, full.1);
    let gone: bool = at_most(hi, lo);
    let w: (F, F) = if gone {
        full
    } else {
        (lo, hi)
    };
    assert(clipped_window(asked, full, lower, upper, at_most, w));
    w
}

/// Which display-range line is meant.
#[derive(Clone, Copy, PartialEq, Eq, Structural, Debug)]
pub enum HistDrag {
    Min,
    Max,
}

/// The line that the pointer grabs, if any: the nearer of those in reach, the
/// lower one where both are as near. Hover highlight and drag both go by it.
pub open spec fn grabbed_line(min_in_reach: bool, max_in_reach: bool, min_not_farther: bool) -> Option<
    HistDrag,
> {
    if min_in_reach && min_not_farther {
        Some(HistDrag::Min)
    } else if max_in_reach {
        Some(HistDrag::Max)
    } else {
        None
    }
}

/// The line that the pointer grabs.
pub fn grab_line(min_in_reach: bool, max_in_reach: bool, min_not_farther: bool) -> (r: Option<
    HistDrag,
>)
    ensures
        r == grabbed_line(min_in_reach, max_in_reach, min_not_farther),
{
    if min_in_reach && min_not_farther {
        Some(HistDrag::Min)
    } else if max_in_reach {
        Some(HistDrag::Max)
    } else {
        None
    }
}

/// Within one reach, the nearer line is grabbed whenever either is in reach.
pub proof fn law_grab_takes_the_nearer(dist_min: int, dist_max: int, reach: int)
    ensures
        ({
            let g = grabbed_line(dist_min < reach, dist_max < reach, dist_min <= dist_max);
            &&& g is Some <==> dist_min < reach || dist_max < reach
            &&& g == Some(HistDrag::Min) ==> dist_min <= dist_max
            &&& g == Some(HistDrag::Max) ==> dist_max < dist_min
        }),
{
}

/// Is a line highlighted? While one is dragged, only that one is; else the one
/// that the pointer would grab.
pub fn line_is_near(line: HistDrag, dragging: Option<HistDrag>, hover: Option<HistDrag>) -> (r: bool)
    ensures
        r == (if dragging is Some {
            dragging == Some(line)
        } else {
            hover == Some(line)
        }),
{
    match dragging {
        Some(d) => d == line,
        None => match hover {
            Some(h) => h == line,
            None => false,
        },
    }
}

/// The limits between which the display range can be set by hand: while the
/// background is subtracted the range seen so far (or `unseen` before the first
/// frame), else the full scale.
pub fn manual_limits<F>(subtracting: bool, seen: Option<(F, F)>, unseen: (F, F), full: (F, F)) -> (r: (
    F,
    F,
))
    ensures
        r == (if subtracting {
            match seen {
                Some(s) => s,
                None => unseen,
            }
        } else {
            full
        }),
{
    if subtracting {
        match seen {
            Some(s) => s,
            None => unseen,
        }
    } else {
        full
    }
}

/// Can the per-channel curves be shown? A frame needs to carry them, and
/// background subtraction leaves none that fit.
pub fn offers_channels(has_channels: bool, subtracting: bool) -> (r: bool)
    ensures
        r == (has_channels && !subtracting),
{
    has_channels && !subtracting
}

/// The label of the count axis.
pub fn count_axis_label(log: bool) -> (r: &'static str)
    ensures
        r == (if log {
            "log\u{2081}\u{2080}(count+1)"
        } else {
            ""
        }),
{
    if log {
        "log\u{2081}\u{2080}(count+1)"
    } else {
        ""
    }
}

/// Is `v` the number `x` moved up to `lo` and then down to `hi`?
pub open spec fn kept_between<F, Lo: Fn(F, F) -> F, Hi: Fn(F, F) -> F>(
    x: F,
    lo: F,
    hi: F,
    lower: Lo,
    upper: Hi,
    v: F,
) -> bool {
    exists|raised: F|
        #[trigger] call_ensures(upper, (x, lo), raised) && call_ensures(lower, (raised, hi), v)
}

/// Is `r` the display range with a line dragged to `x`? The lower line stays
/// between the lower limit and `below_max`, the upper line between `above_min`
/// and the upper limit.
pub open spec fn dragged<F, Lo: Fn(F, F) -> F, Hi: Fn(F, F) -> F>(
    line: HistDrag,
    x: F,
    range: (F, F),
    limits: (F, F),
    below_max: F,
    above_min: F,
    lower: Lo,
    upper: Hi,
    r: (F, F),
) -> bool {
    match line {
        HistDrag::Min => r.1 == range.1 && kept_between(
            x,
            limits.0,
            below_max,
            lower,
            upper,
            r.0,
        ),
        HistDrag::Max => r.0 == range.0 && kept_between(
            x,
            above_min,
            limits.1,
            lower,
            upper,
            r.1,
        ),
    }
}

/// The display range after a line was dragged to `x`: the lower line stays
/// between the lower limit and `below_max`, the upper line between `above_min`
/// and the upper limit, which keeps the two apart.
pub fn drag_line<F: Copy, Lo: Fn(F, F) -> F, Hi: Fn(F, F) -> F>(
    line: HistDrag,
    x: F,
    range: (F, F),
    limits: (F, F),
    below_max: F,
    above_min: F,
    lower: Lo,
    upper: Hi,
) -> (r: (F, F))
    requires
        forall|a: F, b: F| call_requires(lower, (a, b)),
        forall|a: F, b: F| call_requires(upper, (a, b)),
    ensures
        dragged(line, x, range, limits, below_max, above_min, lower, upper, r),
{
    match line {
        HistDrag::Min => {
            let raised: F = upper(x, limits.0);
            let v: F = lower(raised, below_max);
            assert(kept_between(x, limits.0, below_max, lower, upper, v));
            (v, range.1)
        },
        HistDrag::Max => {
            let raised: F = upper(x, above_min);
            let v: F = lower(raised, limits.1);
            assert(kept_between(x, above_min, limits.1, lower, upper, v));
            (range.0, v)
        },
    }
}

/// How the display range is set after a drag: dragging a line sets it by hand,
/// dragging elsewhere changes nothing.
pub open spec fn mode_after_drag(grabbed: Option<HistDrag>, mode: ScaleMode) -> ScaleMode {
    if grabbed is Some {
        ScaleMode::Manual
    } else {
        mode
    }
}

/// How the display range is set, and what it is, after a drag to `x`: with a
/// line grabbed, that line moves and the range is set by hand from then on;
/// with none both stay as they are.
pub fn drag_range<F: Copy, Lo: Fn(F, F) -> F, Hi: Fn(F, F) -> F>(
    grabbed: Option<HistDrag>,
    x: F,
    mode: ScaleMode,
    range: (F, F),
    limits: (F, F),
    below_max: F,
    above_min: F,
    lower: Lo,
    upper: Hi,
) -> (r: (ScaleMode, (F, F)))
    requires
        forall|a: F, b: F| call_requires(lower, (a, b)),
        forall|a: F, b: F| call_requires(upper, (a, b)),
    ensures
        r.0 == mode_after_drag(grabbed, mode),
        match grabbed {
            Some(line) => dragged(
                line,
                x,
                range,
                limits,
                below_max,
                above_min,
                lower,
                upper,
                r.1,
            ),
            None => r.1 == range,
        },
{
    match grabbed {
        Some(line) => (
            ScaleMode::Manual,
            drag_line(line, x, range, limits, below_max, above_min, lower, upper),
        ),
        None => (mode, range),
    }
}

/// A range that was dragged stays put: whatever set the range before, and
/// whatever the next frame holds, it is kept.
pub proof fn law_dragged_range_is_kept(line: HistDrag, mode: ScaleMode, follows_data: bool)
    ensures
        display::range_rule_of(mode_after_drag(Some(line), mode), follows_data)
            == display::RangeRule::Keep,
{
    display::law_only_manual_keeps_the_range(mode_after_drag(Some(line), mode), follows_data);
}

/// A display range that was typed in: an upper end below the lower one moves
/// up to it. `less` says whether a number is less than another.
pub fn ordered_range<F: Copy, L: Fn(F, F) -> bool>(range: (F, F), less: L) -> (r: (F, F))
    requires
        forall|a: F, b: F| call_requires(less, (a, b)),
    ensures
        (call_ensures(less, (range.1, range.0), true) && r == (range.0, range.0)) || (call_ensures(
            less,
            (range.1, range.0),
            false,
        ) && r == range),
{
    let crossed: bool = less(range.1, range.0);
    if crossed {
        (range.0, range.0)
    } else {
        range
    }
}

// ---------------------------------------------------------------------------
// What the plot keeps to

/// The steps that are drawn cover the bins of the window without gap or
/// overlap, count what those bins count, and are fewer than 600; below 600 bins
/// there is one for each.
pub proof fn law_drawn_steps_show_the_window(
    counts: Vec<u64>,
    edges: usize,
    lo: usize,
    hi: usize,
    r: Vec<Step>,
    i: int,
)
    requires
        total(counts@) <= u64::MAX,
        call_ensures(step_bins, (&counts, edges, lo, hi), r),
        counts@.len() > 0 && edges == counts@.len() + 1,
        lo < hi <= counts@.len(),
    ensures
        0 < r@.len() < 600,
        r@[0].from == lo && r@.last().to == hi,
        0 <= i < r@.len() ==> r@[i].from < r@[i].to <= counts@.len() && r@[i].count == total(
            counts@.subrange(r@[i].from as int, r@[i].to as int),
        ),
        0 < i < r@.len() ==> r@[i].from == r@[i - 1].to,
        hi - lo < 600 ==> r@.len() == hi - lo,
{
    let c = counts@;
    let k = run_length(hi - lo);
    let all = runs(c, lo as int, hi as int, k);
    assert(step_values(r@) == all);
    assert(all.len() == r@.len());
    law_steps_stay_few(c, lo as int, hi as int);
    assert forall|j: int| 0 <= j < all.len() implies all[j] == (
        (#[trigger] r@[j]).from as int,
        r@[j].to as int,
        r@[j].count as int,
    ) by {
        assert(step_values(r@)[j] == all[j]);
    }
    assert(all.len() > 0);
    law_steps_tile_the_window(c, lo as int, hi as int, k, 0);
    assert(r@[0] == r@[0]);
    assert(r@.last() == r@[r@.len() - 1]);
    if 0 <= i < r@.len() {
        law_steps_tile_the_window(c, lo as int, hi as int, k, i);
        lemma_run_counts(c, lo as int, hi as int, k, i);
        if i > 0 {
            assert(all[i - 1].1 == r@[i - 1].to as int);
        }
    }
}

/// A run counts its own bins and ends in the window.
proof fn lemma_run_counts(counts: Seq<u64>, from: int, to: int, k: int, i: int)
    requires
        0 <= from <= to <= counts.len(),
        k > 0,
        0 <= i < runs(counts, from, to, k).len(),
    ensures
        ({
            let s = runs(counts, from, to, k)[i];
            from <= s.0 && s.1 <= to && s.2 == total(counts.subrange(s.0, s.1))
        }),
    decreases to - from,
{
    if from < to {
        let end = least(from + k, to);
        if i > 0 {
            lemma_run_counts(counts, end, to, k, i - 1);
            assert(runs(counts, from, to, k)[i] == runs(counts, end, to, k)[i - 1]);
        }
    }
}

/// A histogram that is no histogram has no steps.
pub proof fn law_no_bins_no_steps(
    counts: Vec<u64>,
    edges: usize,
    lo: usize,
    hi: usize,
    r: Vec<Step>,
)
    requires
        total(counts@) <= u64::MAX,
        call_ensures(step_bins, (&counts, edges, lo, hi), r),
    ensures
        counts@.len() == 0 || edges != counts@.len() + 1 ==> r@.len() == 0,
        counts@.len() > 0 && edges == counts@.len() + 1 ==> r@.len() > 0,
{
    if counts@.len() > 0 && edges == counts@.len() + 1 {
        assert(step_values(r@).len() == r@.len());
    }
}

/// The nearer of the two lines is grabbed, if it is in reach; the lower one
/// where both are as near.
pub proof fn law_nearer_line_is_grabbed(
    dist_min: int,
    dist_max: int,
    reach: int,
    r: Option<HistDrag>,
)
    requires
        call_ensures(
            grab_line,
            (dist_min < reach, dist_max < reach, dist_min <= dist_max),
            r,
        ),
    ensures
        r == Some(HistDrag::Min) <==> dist_min < reach && dist_min <= dist_max,
        r == Some(HistDrag::Max) <==> dist_max < reach && dist_max < dist_min,
        r is None <==> dist_min >= reach && dist_max >= reach,
{
}

/// One line at most is highlighted: the one that is dragged, else the one that
/// would be.
pub proof fn law_one_line_is_highlighted(
    dragging: Option<HistDrag>,
    hover: Option<HistDrag>,
    low: bool,
    high: bool,
)
    requires
        call_ensures(line_is_near, (HistDrag::Min, dragging, hover), low),
        call_ensures(line_is_near, (HistDrag::Max, dragging, hover), high),
    ensures
        !(low && high),
        dragging == Some(HistDrag::Min) ==> low,
        dragging == Some(HistDrag::Max) ==> high,
        dragging is None ==> (low <==> hover == Some(HistDrag::Min)),
        dragging is None ==> (high <==> hover == Some(HistDrag::Max)),
{
}

/// The line that is dragged is the one that moves, to where it is dragged
/// within its limits; the other stays. From then on the range is the user's.
pub proof fn law_dragged_line_moves_alone<F: Copy, Lo: Fn(F, F) -> F, Hi: Fn(F, F) -> F>(
    grabbed: Option<HistDrag>,
    x: F,
    mode: ScaleMode,
    range: (F, F),
    limits: (F, F),
    below_max: F,
    above_min: F,
    lower: Lo,
    upper: Hi,
    r: (ScaleMode, (F, F)),
)
    requires
        forall|a: F, b: F| call_requires(lower, (a, b)),
        forall|a: F, b: F| call_requires(upper, (a, b)),
        call_ensures(
            drag_range::<F, Lo, Hi>,
            (grabbed, x, mode, range, limits, below_max, above_min, lower, upper),
            r,
        ),
    ensures
        grabbed is Some ==> r.0 == ScaleMode::Manual,
        grabbed is None ==> r.0 == mode && r.1 == range,
        grabbed == Some(HistDrag::Min) ==> r.1.1 == range.1 && exists|a: F|
            #[trigger] call_ensures(upper, (x, limits.0), a) && call_ensures(
                lower,
                (a, below_max),
                r.1.0,
            ),
        grabbed == Some(HistDrag::Max) ==> r.1.0 == range.0 && exists|a: F|
            #[trigger] call_ensures(upper, (x, above_min), a) && call_ensures(
                lower,
                (a, limits.1),
                r.1.1,
            ),
{
}

/// The range is set by hand within the full scale, or within what subtracted
/// frames have shown.
pub proof fn law_manual_limits<F>(
    subtracting: bool,
    seen: Option<(F, F)>,
    unseen: (F, F),
    full: (F, F),
    r: (F, F),
)
    requires
        call_ensures(manual_limits::<F>, (subtracting, seen, unseen, full), r),
    ensures
        !subtracting ==> r == full,
        subtracting && seen is None ==> r == unseen,
        subtracting && seen is Some ==> Some(r) == seen,
{
}

/// Curves per channel need channels, and no background taken off.
pub proof fn law_channel_curves(has_channels: bool, subtracting: bool, r: bool)
    requires
        call_ensures(offers_channels, (has_channels, subtracting), r),
    ensures
        r ==> has_channels && !subtracting,
        has_channels && !subtracting ==> r,
{
}

/// A typed range whose ends crossed is empty at its lower end; any other is
/// taken as typed.
pub proof fn law_typed_range_is_ordered<F: Copy, L: Fn(F, F) -> bool>(
    range: (F, F),
    less: L,
    r: (F, F),
)
    requires
        forall|a: F, b: F| call_requires(less, (a, b)),
        call_ensures(ordered_range::<F, L>, (range, less), r),
    ensures
        r.0 == range.0,
        !call_ensures(less, (range.1, range.0), true) ==> r.1 == range.1,
        !call_ensures(less, (range.1, range.0), false) ==> r.1 == range.0,
{
}

/// The full range is shown as it is, whatever else there is to show: clipping
/// only ever takes from the other two. Fitted to the data the window reaches
/// out to lines set by hand, and to no other lines.
pub proof fn law_window_is_what_was_asked<
    F: Copy,
    Lo: Fn(F, F) -> F,
    Hi: Fn(F, F) -> F,
    E: Fn(F, F) -> bool,
>(
    range: HistXRange,
    full: (F, F),
    data: (F, F),
    display: (F, F),
    lines: (F, F),
    manual: bool,
    lower: Lo,
    upper: Hi,
    at_most: E,
    r: (F, F),
)
    requires
        forall|a: F, b: F| call_requires(lower, (a, b)),
        forall|a: F, b: F| call_requires(upper, (a, b)),
        forall|a: F, b: F| call_requires(at_most, (a, b)),
        call_ensures(
            hist_window::<F, Lo, Hi, E>,
            (range, full, data, display, lines, manual, lower, upper, at_most),
            r,
        ),
    ensures
        r == full || (exists|lo: F, hi: F|
            #![trigger call_ensures(upper, (lo, full.0), r.0), call_ensures(lower, (hi, full.1), r.1)]
            call_ensures(upper, (lo, full.0), r.0) && call_ensures(lower, (hi, full.1), r.1)
                && call_ensures(at_most, (r.1, r.0), false) && match range {
                HistXRange::Full => lo == full.0 && hi == full.1,
                HistXRange::Display => lo == display.0 && hi == display.1,
                HistXRange::Data => if manual {
                    call_ensures(lower, (data.0, lines.0), lo) && call_ensures(
                        upper,
                        (data.1, lines.1),
                        hi,
                    )
                } else {
                    lo == data.0 && hi == data.1
                },
            }),
        (forall|a: F, b: F| !#[trigger] call_ensures(at_most, (a, b), false)) ==> r == full,
{
    let asked = choose|asked: (F, F)|
        asked_window(range, full, data, display, lines, manual, lower, upper, asked)
            && #[trigger] clipped_window(asked, full, lower, upper, at_most, r);
    let (lo, hi, gone) = choose|lo: F, hi: F, gone: bool|
        #![trigger call_ensures(upper, (asked.0, full.0), lo), call_ensures(lower, (asked.1, full.1), hi), call_ensures(at_most, (hi, lo), gone)]
        call_ensures(upper, (asked.0, full.0), lo) && call_ensures(lower, (asked.1, full.1), hi)
            && call_ensures(at_most, (hi, lo), gone) && r == (if gone {
            full
        } else {
            (lo, hi)
        });
    if !gone {
        assert(call_ensures(upper, (asked.0, full.0), r.0));
        assert(call_ensures(lower, (asked.1, full.1), r.1));
    }
}

/// A window that is not empty is shown: it is not replaced by the full range.
pub proof fn law_window_is_shown_unless_empty<
    F: Copy,
    Lo: Fn(F, F) -> F,
    Hi: Fn(F, F) -> F,
    E: Fn(F, F) -> bool,
>(
    range: HistXRange,
    full: (F, F),
    data: (F, F),
    display: (F, F),
    lines: (F, F),
    manual: bool,
    lower: Lo,
    upper: Hi,
    at_most: E,
    r: (F, F),
)
    requires
        forall|a: F, b: F| call_requires(lower, (a, b)),
        forall|a: F, b: F| call_requires(upper, (a, b)),
        forall|a: F, b: F| call_requires(at_most, (a, b)),
        forall|a: F, b: F| !#[trigger] call_ensures(at_most, (a, b), true),
        call_ensures(
            hist_window::<F, Lo, Hi, E>,
            (range, full, data, display, lines, manual, lower, upper, at_most),
            r,
        ),
    ensures
        range == HistXRange::Display ==> call_ensures(upper, (display.0, full.0), r.0)
            && call_ensures(lower, (display.1, full.1), r.1),
        range == HistXRange::Data && !manual ==> call_ensures(upper, (data.0, full.0), r.0)
            && call_ensures(lower, (data.1, full.1), r.1),
        range == HistXRange::Data && manual ==> (exists|lo: F|
            call_ensures(lower, (data.0, lines.0), lo) && #[trigger] call_ensures(
                upper,
                (lo, full.0),
                r.0,
            )) && (exists|hi: F|
            call_ensures(upper, (data.1, lines.1), hi) && #[trigger] call_ensures(
                lower,
                (hi, full.1),
                r.1,
            )),
{
    let asked = choose|asked: (F, F)|
        asked_window(range, full, data, display, lines, manual, lower, upper, asked)
            && #[trigger] clipped_window(asked, full, lower, upper, at_most, r);
    let (lo, hi, gone) = choose|lo: F, hi: F, gone: bool|
        #![trigger call_ensures(upper, (asked.0, full.0), lo), call_ensures(lower, (asked.1, full.1), hi), call_ensures(at_most, (hi, lo), gone)]
        call_ensures(upper, (asked.0, full.0), lo) && call_ensures(lower, (asked.1, full.1), hi)
            && call_ensures(at_most, (hi, lo), gone) && r == (if gone {
            full
        } else {
            (lo, hi)
        });
    assert(!gone);
    assert(call_ensures(upper, (asked.0, full.0), r.0));
    assert(call_ensures(lower, (asked.1, full.1), r.1));
}

/// The count axis is labeled where it is logarithmic.
pub proof fn law_log_axis_is_labeled(log: bool, r: &'static str)
    requires
        call_ensures(count_axis_label, (log,), r),
    ensures
        log ==> r@ == "log\u{2081}\u{2080}(count+1)"@,
        !log ==> r@ == ""@,
{
}

/// A line that is dragged by itself keeps within its limits and moves no other.
pub proof fn law_line_stays_on_its_side<F: Copy, Lo: Fn(F, F) -> F, Hi: Fn(F, F) -> F>(
    line: HistDrag,
    x: F,
    range: (F, F),
    limits: (F, F),
    below_max: F,
    above_min: F,
    lower: Lo,
    upper: Hi,
    r: (F, F),
)
    requires
        forall|a: F, b: F| call_requires(lower, (a, b)),
        forall|a: F, b: F| call_requires(upper, (a, b)),
        call_ensures(
            drag_line::<F, Lo, Hi>,
            (line, x, range, limits, below_max, above_min, lower, upper),
            r,
        ),
    ensures
        line == HistDrag::Min ==> r.1 == range.1 && exists|a: F|
            #[trigger] call_ensures(upper, (x, limits.0), a) && call_ensures(
                lower,
                (a, below_max),
                r.0,
            ),
        line == HistDrag::Max ==> r.0 == range.0 && exists|a: F|
            #[trigger] call_ensures(upper, (x, above_min), a) && call_ensures(
                lower,
                (a, limits.1),
                r.1,
            ),
{
}

/// A run takes `k` bins, or what is left of them.
proof fn lemma_run_width(counts: Seq<u64>, from: int, to: int, k: int, i: int)
    requires
        k > 0,
        0 <= i < runs(counts, from, to, k).len(),
    ensures
        ({
            let s = runs(counts, from, to, k)[i];
            s.1 == least(s.0 + k, to)
        }),
    decreases to - from,
{
    if from < to {
        let end = least(from + k, to);
        if i > 0 {
            lemma_run_width(counts, end, to, k, i - 1);
            assert(runs(counts, from, to, k)[i] == runs(counts, end, to, k)[i - 1]);
        }
    }
}

/// The steps of a window are all of one width but the last, which may be
/// narrower: a three-hundredth of the window from 600 bins on, and one bin
/// below that. A window beyond the histogram is clipped to it, and one without
/// a bin shows one.
pub proof fn law_steps_are_of_one_width(
    counts: Vec<u64>,
    lo: usize,
    hi: usize,
    edges: usize,
    r: Vec<Step>,
    i: int,
)
    requires
        total(counts@) <= u64::MAX,
        counts.len() > 0,
        edges == counts.len() + 1,
        call_ensures(step_bins, (&counts, edges, lo, hi), r),
        0 <= i < r.len(),
    ensures
        ({
            let first = if lo < counts.len() {
                lo as int
            } else {
                counts.len() - 1
            };
            let end = if hi < counts.len() {
                hi as int
            } else {
                counts.len() as int
            };
            let last = if end > first {
                end
            } else {
                first + 1
            };
            let n = last - first;
            let w = if n >= 600 {
                n / 300
            } else {
                1
            };
            &&& r@[0].from == first
            &&& r@.last().to == last
            &&& r@[i].to == r@[i].from + w || (r@[i].to == last && r@[i].to < r@[i].from + w)
        }),
{
    let c = counts@;
    let first = least(lo as int, counts.len() - 1);
    let last = if least(hi as int, counts.len() as int) > first + 1 {
        least(hi as int, counts.len() as int)
    } else {
        first + 1
    };
    let k = run_length(last - first);
    let all = runs(c, first, last, k);
    assert(step_values(r@) == all);
    assert(all.len() == r@.len());
    assert(step_values(r@)[i] == (r@[i].from as int, r@[i].to as int, r@[i].count as int));
    assert(step_values(r@)[0] == (r@[0].from as int, r@[0].to as int, r@[0].count as int));
    let z = r@.len() - 1;
    assert(step_values(r@)[z] == (r@[z].from as int, r@[z].to as int, r@[z].count as int));
    lemma_run_width(c, first, last, k, i);
    law_steps_tile_the_window(c, first, last, k, z);
    law_steps_tile_the_window(c, first, last, k, 0);
}

/// A step of one bin counts what that bin counts.
pub proof fn law_single_bins_count_themselves(
    counts: Vec<u64>,
    edges: usize,
    lo: usize,
    hi: usize,
    r: Vec<Step>,
    i: int,
)
    requires
        total(counts@) <= u64::MAX,
        call_ensures(step_bins, (&counts, edges, lo, hi), r),
        counts@.len() > 0 && edges == counts@.len() + 1,
        lo < hi <= counts@.len(),
        hi - lo < 600,
        0 <= i < r.len(),
    ensures
        r@[i].from == lo + i,
        r@[i].count == counts@[lo + i],
{
    let c = counts@;
    law_drawn_steps_show_the_window(counts, edges, lo, hi, r, i);
    law_steps_are_of_one_width(counts, lo, hi, edges, r, i);
    lemma_single_steps(counts, edges, lo, hi, r, i);
    let one = c.subrange(lo + i, lo + i + 1);
    assert(one.len() == 1 && one[0] == c[lo + i]);
    reveal_with_fuel(total, 3);
    assert(total(one) == c[lo + i]);
}

/// Below 600 bins the `i`th step begins at the `i`th bin of the window.
proof fn lemma_single_steps(
    counts: Vec<u64>,
    edges: usize,
    lo: usize,
    hi: usize,
    r: Vec<Step>,
    i: int,
)
    requires
        total(counts@) <= u64::MAX,
        call_ensures(step_bins, (&counts, edges, lo, hi), r),
        counts@.len() > 0 && edges == counts@.len() + 1,
        lo < hi <= counts@.len(),
        hi - lo < 600,
        0 <= i < r.len(),
    ensures
        r@[i].from == lo + i,
    decreases i,
{
    law_drawn_steps_show_the_window(counts, edges, lo, hi, r, i);
    if i > 0 {
        lemma_single_steps(counts, edges, lo, hi, r, i - 1);
        law_steps_are_of_one_width(counts, lo, hi, edges, r, i - 1);
    }
}

} // verus!
