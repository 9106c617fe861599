use vstd::prelude::*;

verus! {

/// A terminal color in one of the two encodings a host palette may use:
/// a 24-bit RGB triple or an 8-bit indexed value.
#[derive(Clone, Copy, Debug, PartialEq, Eq, Structural)]
pub enum Color {
    Rgb(u8, u8, u8),
    EightBit(u8),
}

/// The named palette colors the renderer reads. `black` is the baseline
/// background color, used behind every segment and for the trailing fill.
#[derive(Clone, Copy, Debug, PartialEq, Eq, Structural)]
pub struct Palette {
    pub fg: Color,
    pub black: Color,
    pub blue: Color,
    pub green: Color,
    pub magenta: Color,
    pub orange: Color,
}

/// The host's input mode. Only `Normal`, `Locked` and `RenameTab` are singled
/// out by the renderer; every other mode is carried as `Other` with a
/// host-assigned tag, so that two distinct unnamed modes still compare
/// unequal.
#[derive(Clone, Copy, Debug, PartialEq, Eq, Structural)]
pub enum InputMode {
    Normal,
    Locked,
    RenameTab,
    Other(u32),
}

/// The snapshot delivered on a mode-change notification: the input mode and
/// the palette that comes with it.
#[derive(Clone, Copy, Debug, PartialEq, Eq, Structural)]
pub struct ModeInfo {
    pub mode: InputMode,
    pub palette: Palette,
}

/// One open tab, as the host reports it. `position` is 0-based and is shown
/// 1-based.
#[derive(Debug)]
pub struct Tab {
    pub position: usize,
    pub name: String,
    pub active: bool,
}

/// Mathematical model of a tab.
#[verifier::ext_equal]
pub struct TabView {
    pub position: nat,
    pub name: Seq<char>,
    pub active: bool,
}

impl View for Tab {
    type V = TabView;

    open spec fn view(&self) -> TabView {
        TabView { position: self.position as nat, name: self.name@, active: self.active }
    }
}

impl DeepView for Tab {
    type V = TabView;

    open spec fn deep_view(&self) -> TabView {
        self.view()
    }
}

} // verus!
