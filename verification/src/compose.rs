use vstd::prelude::*;

use crate::model::{InputMode, Palette};
use crate::segment::{prefix, prefix_seg, SegView, Segment};

verus! {

/// The display width of `text` in terminal columns: the result of
/// unicode_width::UnicodeWidthStr::width, a function of the characters alone.
pub uninterp spec fn display_width(text: Seq<char>) -> nat;

/// Relies on unicode_width::UnicodeWidthStr::width: the displayed width of
/// the string in columns per Unicode east-asian-width rules, a function of
/// the characters alone.
#[verifier::external_body]
fn text_width(text: &str) -> (w: usize)
    ensures
        w == display_width(text@),
{
    unicode_width::UnicodeWidthStr::width(text)
}

/// The display width of one segment.
pub open spec fn seg_width(s: SegView) -> nat {
    display_width(s.text)
}

/// The total display width of a run of segments.
pub open spec fn sum_widths(segs: Seq<SegView>) -> nat
    decreases segs.len(),
{
    if segs.len() == 0 {
        0
    } else {
        seg_width(segs[0]) + sum_widths(segs.drop_first())
    }
}

/// How many leading segments the greedy cut keeps: segments are taken in
/// order while their running total width stays within `budget`; the first
/// segment that does not fit stops the scan, whatever follows it.
pub open spec fn fit_len(segs: Seq<SegView>, budget: int) -> nat
    decreases segs.len(),
{
    if segs.len() == 0 {
        0
    } else if seg_width(segs[0]) <= budget {
        (1 + fit_len(segs.drop_first(), budget - seg_width(segs[0]))) as nat
    } else {
        0
    }
}

/// The segments the greedy cut keeps.
pub open spec fn selected(segs: Seq<SegView>, budget: int) -> Seq<SegView> {
    segs.take(fit_len(segs, budget) as int)
}

/// Law: the cut never keeps more segments than there are, and what it keeps
/// is a prefix of the given sequence, in the given order.
pub proof fn lemma_selected_is_prefix(segs: Seq<SegView>, budget: int)
    ensures
        fit_len(segs, budget) <= segs.len(),
        selected(segs, budget).is_prefix_of(segs),
    decreases segs.len(),
{
    if segs.len() != 0 && seg_width(segs[0]) <= budget {
        lemma_selected_is_prefix(segs.drop_first(), budget - seg_width(segs[0]));
    }
    assert(selected(segs, budget) =~= segs.take(fit_len(segs, budget) as int));
}

/// Law: the total display width of what the cut keeps never exceeds the
/// budget.
pub proof fn lemma_selected_fits(segs: Seq<SegView>, budget: int)
    requires
        budget >= 0,
    ensures
        sum_widths(selected(segs, budget)) <= budget,
    decreases segs.len(),
{
    lemma_selected_is_prefix(segs, budget);
    if segs.len() == 0 || seg_width(segs[0]) > budget {
        assert(selected(segs, budget) =~= Seq::<SegView>::empty());
    } else {
        let rest = segs.drop_first();
        let inner = budget - seg_width(segs[0]);
        lemma_selected_is_prefix(rest, inner);
        lemma_selected_fits(rest, inner);
        assert(selected(segs, budget)[0] == segs[0]);
        assert(selected(segs, budget).drop_first() =~= selected(rest, inner));
    }
}

/// Law: with a zero column budget the kept run occupies no columns at all:
/// only segments of width zero can survive it.
pub proof fn lemma_zero_budget_keeps_no_width(segs: Seq<SegView>)
    ensures
        sum_widths(selected(segs, 0)) == 0,
{
    lemma_selected_fits(segs, 0);
}

/// LineComposer: the indicator first, then the tab segments in source order,
/// cut greedily to the column budget. The indicator itself is dropped only
/// when the budget is below its own width.
pub fn line_segments(cols: usize, tabs: Vec<Segment>, mode: InputMode, palette: Palette) -> (line:
    Vec<Segment>)
    ensures
        line.deep_view() == selected(
            seq![prefix_seg(mode, palette)] + tabs.deep_view(),
            cols as int,
        ),
        sum_widths(line.deep_view()) <= cols,
{
    let ghost tab_views = tabs.deep_view();
    let mut all = tabs;
    all.insert(0, prefix(mode, palette));
    let ghost segs = all.deep_view();
    proof {
        assert(segs =~= seq![prefix_seg(mode, palette)] + tab_views);
    }
    let mut i: usize = 0;
    let mut remaining: usize = cols;
    let mut fits = true;
    proof {
        assert(segs.skip(0) =~= segs);
    }
    while fits && i < all.len()
        invariant
            i <= all.len(),
            remaining <= cols,
            all.deep_view() == segs,
            all@.len() == segs.len(),
            fits ==> fit_len(segs, cols as int) == i + fit_len(
                segs.skip(i as int),
                remaining as int,
            ),
            !fits ==> fit_len(segs, cols as int) == i,
        decreases all.len() - i + (if fits {
            1int
        } else {
            0int
        }),
    {
        proof {
            assert(all.deep_view()[i as int] == all@[i as int]@);
            assert(segs.skip(i as int)[0] == segs[i as int]);
        }
        let w = text_width(all[i].text.as_str());
        if w <= remaining {
            proof {
                assert(segs.skip(i as int).drop_first() =~= segs.skip(i as int + 1));
            }
            remaining -= w;
            i += 1;
        } else {
            fits = false;
        }
    }
    proof {
        if fits {
            assert(segs.skip(i as int) =~= Seq::<SegView>::empty());
        }
        assert(fit_len(segs, cols as int) == i);
    }
    all.truncate(i);
    proof {
        assert(all.deep_view() =~= selected(segs, cols as int));
        lemma_selected_fits(segs, cols as int);
    }
    all
}

} // verus!
