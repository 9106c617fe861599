use vstd::prelude::*;

use crate::compose::{line_segments, selected};
use crate::model::{Color, InputMode, ModeInfo, Palette, Tab, TabView};
use crate::render::{output_of, render_line};
use crate::segment::{prefix_seg, tab_seg, tab_segment, SegView, Segment};

verus! {

/// One notification from the host. Kinds the bar does not consume are
/// carried as `Other`; they change nothing and signal nothing.
pub enum Event {
    TabUpdate(Vec<Tab>),
    ModeUpdate(ModeInfo),
    Other,
}

/// The segments a tab list derives: one per tab, in source order.
pub open spec fn tab_segs_of(tabs: Seq<TabView>, mode: InputMode, palette: Palette) -> Seq<
    SegView,
> {
    tabs.map_values(|t: TabView| tab_seg(t, mode, palette))
}

/// The whole composed sequence: the mode indicator first, then the tab
/// segments in source order.
pub open spec fn bar_segs(tabs: Seq<TabView>, mode: InputMode, palette: Palette) -> Seq<SegView> {
    seq![prefix_seg(mode, palette)] + tab_segs_of(tabs, mode, palette)
}

/// The full line a snapshot renders into `cols` columns.
pub open spec fn bar_output(
    tabs: Seq<TabView>,
    mode: InputMode,
    palette: Palette,
    cols: int,
) -> Seq<char> {
    output_of(selected(bar_segs(tabs, mode, palette), cols), palette.black)
}

/// StateStore: the latest known tab list and mode snapshot.
pub struct State {
    pub tabs: Vec<Tab>,
    pub mode_info: ModeInfo,
}

impl Default for State {
    /// The state before any notification: no tabs, normal mode, and every
    /// palette color the indexed baseline value 0.
    fn default() -> (s: State)
        ensures
            s.tabs@.len() == 0,
            s.mode_info == initial_mode_info(),
    {
        State { tabs: Vec::new(), mode_info: initial_mode_info_value() }
    }
}

/// The mode snapshot a fresh state holds.
pub open spec fn initial_mode_info() -> ModeInfo {
    ModeInfo {
        mode: InputMode::Normal,
        palette: Palette {
            fg: Color::EightBit(0),
            black: Color::EightBit(0),
            blue: Color::EightBit(0),
            green: Color::EightBit(0),
            magenta: Color::EightBit(0),
            orange: Color::EightBit(0),
        },
    }
}

fn initial_mode_info_value() -> (m: ModeInfo)
    ensures
        m == initial_mode_info(),
{
    ModeInfo {
        mode: InputMode::Normal,
        palette: Palette {
            fg: Color::EightBit(0),
            black: Color::EightBit(0),
            blue: Color::EightBit(0),
            green: Color::EightBit(0),
            magenta: Color::EightBit(0),
            orange: Color::EightBit(0),
        },
    }
}

impl State {
    /// Applies one notification and says whether a redraw is due: a tab-list
    /// notification replaces the list and always signals; a mode notification
    /// replaces the snapshot and signals exactly when it differs from the
    /// stored one; any other notification changes nothing and never signals.
    pub fn update(&mut self, event: Event) -> (redraw: bool)
        ensures
            event matches Event::TabUpdate(tabs) ==> final(self).tabs == tabs
                && final(self).mode_info == old(self).mode_info && redraw,
            event matches Event::ModeUpdate(mi) ==> final(self).tabs == old(self).tabs
                && final(self).mode_info == mi && redraw == (mi != old(self).mode_info),
            event matches Event::Other ==> *final(self) == *old(self) && !redraw,
    {
        match event {
            Event::ModeUpdate(mode_info) => {
                if self.mode_info != mode_info {
                    self.mode_info = mode_info;
                    true
                } else {
                    false
                }
            },
            Event::TabUpdate(tabs) => {
                self.tabs = tabs;
                true
            },
            Event::Other => false,
        }
    }

    /// Renders the current snapshot into a row of `cols` columns: the mode
    /// indicator, the tab labels that fit, and the trailing background fill.
    /// With no tabs known nothing is drawn and the result is `None`. `rows`
    /// is accepted and unused: this is a single-line bar. A budget of 0
    /// leaves an empty selection and the result is the background fill alone.
    pub fn render(&self, _rows: usize, cols: usize) -> (out: Option<String>)
        requires
            forall|i: int|
                0 <= i < self.tabs@.len() ==> (#[trigger] self.tabs@[i]).position < usize::MAX,
        ensures
            out is Some <==> self.tabs@.len() > 0,
            out matches Some(line) ==> line@ == bar_output(
                self.tabs.deep_view(),
                self.mode_info.mode,
                self.mode_info.palette,
                cols as int,
            ),
    {
        if self.tabs.is_empty() {
            return None;
        }
        let mode = self.mode_info.mode;
        let palette = self.mode_info.palette;
        let ghost tab_views = self.tabs.deep_view();
        let mut segs: Vec<Segment> = Vec::new();
        let mut i: usize = 0;
        proof {
            assert(segs.deep_view() =~= tab_segs_of(tab_views.take(0), mode, palette));
        }
        while i < self.tabs.len()
            invariant
                i <= self.tabs@.len(),
                self.tabs@.len() == tab_views.len(),
                self.tabs.deep_view() == tab_views,
                forall|j: int|
                    0 <= j < self.tabs@.len() ==> (#[trigger] self.tabs@[j]).position < usize::MAX,
                segs.deep_view() == tab_segs_of(tab_views.take(i as int), mode, palette),
            decreases self.tabs@.len() - i,
        {
            proof {
                assert(self.tabs.deep_view()[i as int] == self.tabs@[i as int]@);
            }
            let ghost prev = segs.deep_view();
            let seg = tab_segment(&self.tabs[i], mode, palette);
            segs.push(seg);
            proof {
                assert forall|j: int| 0 <= j < prev.len() implies segs.deep_view()[j] == prev[j] by {
                    assert(segs@[j] == segs@.drop_last()[j]);
                }
                assert(segs.deep_view() =~= prev.push(seg@));
                assert forall|j: int| 0 <= j <= i implies #[trigger] tab_views.take(i as int + 1)[j]
                    == tab_views[j] by {}
                assert(segs.deep_view() =~= tab_segs_of(
                    tab_views.take(i as int + 1),
                    mode,
                    palette,
                ));
            }
            i += 1;
        }
        proof {
            assert(tab_views.take(tab_views.len() as int) =~= tab_views);
        }
        let line = line_segments(cols, segs, mode, palette);
        Some(render_line(&line, palette.black))
    }
}

} // verus!
