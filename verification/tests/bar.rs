use tab_bar::model::{Color, InputMode, ModeInfo, Palette, Tab};
use tab_bar::state::{Event, State};

fn ansi(c: Color) -> ansi_term::Color {
    match c {
        Color::Rgb(r, g, b) => ansi_term::Color::RGB(r, g, b),
        Color::EightBit(n) => ansi_term::Color::Fixed(n),
    }
}

fn chunk(text: &str, fg: Color, bg: Color) -> String {
    ansi_term::Style::new()
        .fg(ansi(fg))
        .on(ansi(bg))
        .paint(text)
        .to_string()
}

fn fill(black: Color) -> String {
    match black {
        Color::Rgb(r, g, b) => format!("\u{1b}[48;2;{};{};{}m\u{1b}[0K", r, g, b),
        Color::EightBit(c) => format!("\u{1b}[48;5;{}m\u{1b}[0K", c),
    }
}

fn palette() -> Palette {
    Palette {
        fg: Color::Rgb(1, 2, 3),
        black: Color::Rgb(10, 20, 30),
        blue: Color::Rgb(4, 5, 6),
        green: Color::EightBit(2),
        magenta: Color::EightBit(5),
        orange: Color::Rgb(255, 165, 0),
    }
}

fn tab(position: usize, name: &str, active: bool) -> Tab {
    Tab {
        position,
        name: String::from(name),
        active,
    }
}

fn state_with(tabs: Vec<Tab>, mode: InputMode, palette: Palette) -> State {
    let mut st = State::default();
    st.update(Event::ModeUpdate(ModeInfo { mode, palette }));
    st.update(Event::TabUpdate(tabs));
    st
}

#[test]
fn mode_update_signals_only_on_change() {
    let mut st = State::default();
    let mi = ModeInfo {
        mode: InputMode::Locked,
        palette: palette(),
    };
    assert!(st.update(Event::ModeUpdate(mi)));
    assert!(!st.update(Event::ModeUpdate(mi)));
    let other = ModeInfo {
        mode: InputMode::Other(7),
        palette: palette(),
    };
    assert!(st.update(Event::ModeUpdate(other)));
}

#[test]
fn mode_update_sees_palette_changes() {
    let mut st = State::default();
    let mi = ModeInfo {
        mode: InputMode::Locked,
        palette: palette(),
    };
    assert!(st.update(Event::ModeUpdate(mi)));
    let mut repainted = palette();
    repainted.orange = Color::EightBit(208);
    assert!(st.update(Event::ModeUpdate(ModeInfo {
        mode: InputMode::Locked,
        palette: repainted,
    })));
}

#[test]
fn tab_update_always_signals() {
    let mut st = State::default();
    assert!(st.update(Event::TabUpdate(vec![tab(0, "work", true)])));
    assert!(st.update(Event::TabUpdate(vec![tab(0, "work", true)])));
}

#[test]
fn other_event_changes_nothing() {
    let mut st = State::default();
    assert!(!st.update(Event::Other));
    assert!(st.render(1, 80).is_none());
}

#[test]
fn empty_tab_list_renders_nothing() {
    let st = state_with(vec![], InputMode::Normal, palette());
    assert!(st.render(1, 80).is_none());
    assert!(st.render(1, 0).is_none());
    let st = state_with(vec![], InputMode::Other(3), palette());
    assert!(st.render(5, 200).is_none());
}

#[test]
fn default_name_collapses_to_placeholder() {
    let p = palette();
    let st = state_with(vec![tab(0, "Tab #3", false)], InputMode::Normal, p);
    let expected = format!(
        "{}{}{}",
        chunk(" \u{2022} ", p.green, p.black),
        chunk("1:_ ", p.fg, p.black),
        fill(p.black)
    );
    assert_eq!(st.render(1, 80).unwrap(), expected);
}

#[test]
fn multi_digit_default_name_collapses() {
    let p = palette();
    let st = state_with(vec![tab(0, "Tab #12", false)], InputMode::Normal, p);
    let expected = format!(
        "{}{}{}",
        chunk(" \u{2022} ", p.green, p.black),
        chunk("1:_ ", p.fg, p.black),
        fill(p.black)
    );
    assert_eq!(st.render(1, 80).unwrap(), expected);
}

#[test]
fn near_default_name_renders_verbatim() {
    let p = palette();
    let st = state_with(vec![tab(0, "Tab #3x", false)], InputMode::Normal, p);
    let expected = format!(
        "{}{}{}",
        chunk(" \u{2022} ", p.green, p.black),
        chunk("1:Tab #3x ", p.fg, p.black),
        fill(p.black)
    );
    assert_eq!(st.render(1, 80).unwrap(), expected);
}

#[test]
fn bare_default_prefix_renders_verbatim() {
    let p = palette();
    let st = state_with(vec![tab(0, "Tab #", false)], InputMode::Normal, p);
    let expected = format!(
        "{}{}{}",
        chunk(" \u{2022} ", p.green, p.black),
        chunk("1:Tab # ", p.fg, p.black),
        fill(p.black)
    );
    assert_eq!(st.render(1, 80).unwrap(), expected);
}

#[test]
fn near_prefix_name_renders_verbatim() {
    let p = palette();
    let st = state_with(vec![tab(0, "Tab3", false)], InputMode::Normal, p);
    let expected = format!(
        "{}{}{}",
        chunk(" \u{2022} ", p.green, p.black),
        chunk("1:Tab3 ", p.fg, p.black),
        fill(p.black)
    );
    assert_eq!(st.render(1, 80).unwrap(), expected);
}

#[test]
fn renaming_active_tab_shows_ellipsis() {
    let p = palette();
    let st = state_with(vec![tab(0, "", true)], InputMode::RenameTab, p);
    let expected = format!(
        "{}{}{}",
        chunk(" \u{2022} ", p.orange, p.black),
        chunk("1:... ", p.blue, p.black),
        fill(p.black)
    );
    assert_eq!(st.render(1, 80).unwrap(), expected);
}

#[test]
fn renaming_inactive_tab_falls_through() {
    let p = palette();
    let st = state_with(vec![tab(0, "", false)], InputMode::RenameTab, p);
    let expected = format!(
        "{}{}{}",
        chunk(" \u{2022} ", p.orange, p.black),
        chunk("1: ", p.fg, p.black),
        fill(p.black)
    );
    assert_eq!(st.render(1, 80).unwrap(), expected);
}

#[test]
fn prefix_color_follows_mode() {
    let p = palette();
    for (mode, color) in [
        (InputMode::Locked, p.magenta),
        (InputMode::Normal, p.green),
        (InputMode::RenameTab, p.orange),
        (InputMode::Other(42), p.orange),
    ] {
        let st = state_with(vec![tab(0, "a", false)], mode, p);
        let expected = format!(
            "{}{}{}",
            chunk(" \u{2022} ", color, p.black),
            chunk("1:a ", p.fg, p.black),
            fill(p.black)
        );
        assert_eq!(st.render(1, 80).unwrap(), expected);
    }
}

#[test]
fn active_tab_gets_accent_color() {
    let p = palette();
    let st = state_with(
        vec![tab(0, "one", true), tab(1, "two", false)],
        InputMode::Normal,
        p,
    );
    let expected = format!(
        "{}{}{}{}",
        chunk(" \u{2022} ", p.green, p.black),
        chunk("1:one ", p.blue, p.black),
        chunk("2:two ", p.fg, p.black),
        fill(p.black)
    );
    assert_eq!(st.render(1, 80).unwrap(), expected);
}

#[test]
fn positions_render_one_based_decimal() {
    let p = palette();
    let st = state_with(vec![tab(11, "logs", false)], InputMode::Normal, p);
    let expected = format!(
        "{}{}{}",
        chunk(" \u{2022} ", p.green, p.black),
        chunk("12:logs ", p.fg, p.black),
        fill(p.black)
    );
    assert_eq!(st.render(1, 80).unwrap(), expected);
}

#[test]
fn zero_budget_leaves_fill_alone() {
    let p = palette();
    let st = state_with(vec![tab(0, "work", false)], InputMode::Normal, p);
    assert_eq!(st.render(1, 0).unwrap(), fill(p.black));
}

#[test]
fn eight_bit_baseline_uses_indexed_fill() {
    let mut p = palette();
    p.black = Color::EightBit(114);
    let st = state_with(vec![tab(0, "work", false)], InputMode::Normal, p);
    assert_eq!(
        st.render(1, 0).unwrap(),
        "\u{1b}[48;5;114m\u{1b}[0K".to_string()
    );
}

#[test]
fn later_tabs_are_dropped_first() {
    let p = palette();
    let st = state_with(
        vec![tab(0, "a", false), tab(1, "b", false)],
        InputMode::Normal,
        p,
    );
    // widths: indicator 3, each label "n:x " 4; budget 7 fits only the first.
    let expected = format!(
        "{}{}{}",
        chunk(" \u{2022} ", p.green, p.black),
        chunk("1:a ", p.fg, p.black),
        fill(p.black)
    );
    assert_eq!(st.render(1, 7).unwrap(), expected);
}

#[test]
fn indicator_survives_alone_when_budget_is_tight() {
    let p = palette();
    let st = state_with(vec![tab(0, "a", false)], InputMode::Normal, p);
    let expected = format!("{}{}", chunk(" \u{2022} ", p.green, p.black), fill(p.black));
    assert_eq!(st.render(1, 3).unwrap(), expected);
    assert_eq!(st.render(1, 2).unwrap(), fill(p.black));
}

#[test]
fn truncation_measures_display_width_not_chars() {
    let p = palette();
    // "1:\u{3042} " holds 4 chars but spans 5 columns: the kana is wide.
    let st = state_with(vec![tab(0, "\u{3042}", false)], InputMode::Normal, p);
    let kept = format!(
        "{}{}{}",
        chunk(" \u{2022} ", p.green, p.black),
        chunk("1:\u{3042} ", p.fg, p.black),
        fill(p.black)
    );
    let dropped = format!("{}{}", chunk(" \u{2022} ", p.green, p.black), fill(p.black));
    assert_eq!(st.render(1, 8).unwrap(), kept);
    assert_eq!(st.render(1, 7).unwrap(), dropped);
}

#[test]
fn render_is_idempotent_between_updates() {
    let p = palette();
    let st = state_with(vec![tab(0, "work", true)], InputMode::Locked, p);
    assert_eq!(st.render(1, 40), st.render(1, 40));
}
