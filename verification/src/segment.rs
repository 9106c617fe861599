use vstd::prelude::*;

use crate::model::{Color, InputMode, Palette, Tab, TabView};
use crate::text::{dec_of, dec_string, is_default_name, matches_default_name};

verus! {

/// An atomic styled run: one piece of text with one foreground and one
/// background color.
#[derive(Debug)]
pub struct Segment {
    pub text: String,
    pub fg: Color,
    pub bg: Color,
}

/// Mathematical model of a segment.
#[verifier::ext_equal]
pub struct SegView {
    pub text: Seq<char>,
    pub fg: Color,
    pub bg: Color,
}

impl View for Segment {
    type V = SegView;

    open spec fn view(&self) -> SegView {
        SegView { text: self.text@, fg: self.fg, bg: self.bg }
    }
}

impl DeepView for Segment {
    type V = SegView;

    open spec fn deep_view(&self) -> SegView {
        self.view()
    }
}

/// The display text for one tab, by this precedence: an active tab with an
/// empty name under the rename mode shows the placeholder "..."; an
/// auto-generated default name ("Tab #" followed by a number) collapses to
/// "_"; any other name is shown verbatim.
pub open spec fn tab_text(tab: TabView, mode: InputMode) -> Seq<char> {
    if tab.active && tab.name.len() == 0 && mode == InputMode::RenameTab {
        "..."@
    } else if is_default_name(tab.name) {
        "_"@
    } else {
        tab.name
    }
}

/// The full label of one tab: its 1-based position, a colon, the display
/// text, and one trailing separator space.
pub open spec fn tab_label(tab: TabView, mode: InputMode) -> Seq<char> {
    dec_of(tab.position + 1) + ":"@ + tab_text(tab, mode) + " "@
}

/// The segment for one tab: its label, the active accent or the normal
/// foreground, over the baseline background.
pub open spec fn tab_seg(tab: TabView, mode: InputMode, palette: Palette) -> SegView {
    SegView {
        text: tab_label(tab, mode),
        fg: if tab.active {
            palette.blue
        } else {
            palette.fg
        },
        bg: palette.black,
    }
}

/// Law: an active tab whose name is empty shows the rename placeholder "..."
/// while the rename mode is current.
pub proof fn lemma_rename_placeholder(tab: TabView)
    requires
        tab.active,
        tab.name.len() == 0,
    ensures
        tab_text(tab, InputMode::RenameTab) == "..."@,
{
}

/// Law: an inactive tab with an empty name does not show the rename
/// placeholder even under the rename mode; its empty name is no default name,
/// so it falls through to the verbatim rule.
pub proof fn lemma_rename_needs_active(tab: TabView)
    requires
        !tab.active,
        tab.name.len() == 0,
    ensures
        tab_text(tab, InputMode::RenameTab) == tab.name,
{
}

/// Builds the segment for one tab.
pub fn tab_segment(tab: &Tab, mode: InputMode, palette: Palette) -> (s: Segment)
    requires
        tab.position < usize::MAX,
    ensures
        s@ == tab_seg(tab@, mode, palette),
{
    let mut text = dec_string(tab.position + 1);
    text.append(":");
    if tab.active && tab.name.as_str().is_empty() && mode == InputMode::RenameTab {
        text.append("...");
    } else if matches_default_name(tab.name.as_str()) {
        text.append("_");
    } else {
        text.append(tab.name.as_str());
    }
    text.append(" ");
    proof {
        assert(text@ =~= tab_label(tab@, mode));
    }
    let fg = if tab.active {
        palette.blue
    } else {
        palette.fg
    };
    Segment { text, fg, bg: palette.black }
}

/// The foreground of the leading mode indicator: an exhaustive match with
/// every mode not singled out getting the attention color.
pub open spec fn prefix_color(mode: InputMode, palette: Palette) -> Color {
    match mode {
        InputMode::Locked => palette.magenta,
        InputMode::Normal => palette.green,
        _ => palette.orange,
    }
}

/// The leading indicator segment: a bullet padded with one space on each
/// side, colored by the current mode, over the baseline background.
pub open spec fn prefix_seg(mode: InputMode, palette: Palette) -> SegView {
    SegView { text: " \u{2022} "@, fg: prefix_color(mode, palette), bg: palette.black }
}

/// Builds the leading indicator segment.
pub fn prefix(mode: InputMode, palette: Palette) -> (s: Segment)
    ensures
        s@ == prefix_seg(mode, palette),
{
    let fg = match mode {
        InputMode::Locked => palette.magenta,
        InputMode::Normal => palette.green,
        _ => palette.orange,
    };
    Segment { text: String::from_str(" \u{2022} "), fg, bg: palette.black }
}

} // verus!
