use vstd::prelude::*;

use crate::model::Color;
use crate::segment::{SegView, Segment};
use crate::text::{dec_of, dec_string};

verus! {

/// The SGR parameters that select `c` as the foreground color: the 24-bit
/// form for an RGB triple, the 8-bit form for an indexed value.
pub open spec fn fg_code_of(c: Color) -> Seq<char> {
    match c {
        Color::Rgb(r, g, b) => "38;2;"@ + dec_of(r as nat) + ";"@ + dec_of(g as nat) + ";"@
            + dec_of(b as nat),
        Color::EightBit(n) => "38;5;"@ + dec_of(n as nat),
    }
}

/// The SGR parameters that select `c` as the background color.
pub open spec fn bg_code_of(c: Color) -> Seq<char> {
    match c {
        Color::Rgb(r, g, b) => "48;2;"@ + dec_of(r as nat) + ";"@ + dec_of(g as nat) + ";"@
            + dec_of(b as nat),
        Color::EightBit(n) => "48;5;"@ + dec_of(n as nat),
    }
}

/// The escape-styled chunk for `text` under the given foreground and
/// background: one SGR sequence holding the background code and then the
/// foreground code, the text, and the reset sequence.
pub open spec fn styled_of(text: Seq<char>, fg: Color, bg: Color) -> Seq<char> {
    "\u{1b}["@ + bg_code_of(bg) + ";"@ + fg_code_of(fg) + "m"@ + text + "\u{1b}[0m"@
}

/// Relies on ansi_term: Style::new().fg(..).on(..).paint(text) rendered to a
/// String writes the background code, a semicolon, the foreground code — RGB
/// colors in the 24-bit form, indexed ones in the 8-bit form — within one SGR
/// sequence, then the text, then the reset, exactly as styled_of states.
#[verifier::external_body]
fn paint_segment(text: &str, fg: Color, bg: Color) -> (out: String)
    ensures
        out@ == styled_of(text@, fg, bg),
{
    let fg_c = match fg {
        Color::Rgb(r, g, b) => ansi_term::Color::RGB(r, g, b),
        Color::EightBit(c) => ansi_term::Color::Fixed(c),
    };
    let bg_c = match bg {
        Color::Rgb(r, g, b) => ansi_term::Color::RGB(r, g, b),
        Color::EightBit(c) => ansi_term::Color::Fixed(c),
    };
    ansi_term::Style::new().fg(fg_c).on(bg_c).paint(text).to_string()
}

/// The styled chunks of a whole selection, concatenated in order with no
/// separators.
pub open spec fn rendered_of(segs: Seq<SegView>) -> Seq<char>
    decreases segs.len(),
{
    if segs.len() == 0 {
        Seq::empty()
    } else {
        rendered_of(segs.drop_last()) + styled_of(
            segs.last().text,
            segs.last().fg,
            segs.last().bg,
        )
    }
}

/// The trailing control sequence that paints the rest of the row with the
/// baseline color and clears to end of line. It has exactly two encodings,
/// chosen by the color's tag: an RGB-triple form and an 8-bit-indexed form.
pub open spec fn fill_of(black: Color) -> Seq<char> {
    "\u{1b}["@ + bg_code_of(black) + "m\u{1b}[0K"@
}

/// Appends the SGR background code for `c`.
fn append_bg_code(s: &mut String, c: Color)
    ensures
        final(s)@ == old(s)@ + bg_code_of(c),
{
    match c {
        Color::Rgb(r, g, b) => {
            s.append("48;2;");
            let digits = dec_string(r as usize);
            s.append(digits.as_str());
            s.append(";");
            let digits = dec_string(g as usize);
            s.append(digits.as_str());
            s.append(";");
            let digits = dec_string(b as usize);
            s.append(digits.as_str());
        },
        Color::EightBit(n) => {
            s.append("48;5;");
            let digits = dec_string(n as usize);
            s.append(digits.as_str());
        },
    }
    proof {
        assert(s@ =~= old(s)@ + bg_code_of(c));
    }
}

/// Builds the trailing background-fill sequence for the baseline color.
pub fn fill_sequence(black: Color) -> (s: String)
    ensures
        s@ == fill_of(black),
{
    let mut s = String::new();
    s.append("\u{1b}[");
    append_bg_code(&mut s, black);
    s.append("m\u{1b}[0K");
    proof {
        assert(s@ =~= fill_of(black));
    }
    s
}

/// The full output for a selection: its styled chunks, then the background
/// fill for the baseline color.
pub open spec fn output_of(segs: Seq<SegView>, black: Color) -> Seq<char> {
    rendered_of(segs) + fill_of(black)
}

/// Renderer: serializes the selected segments in order and appends the
/// background fill.
pub fn render_line(segments: &Vec<Segment>, black: Color) -> (out: String)
    ensures
        out@ == output_of(segments.deep_view(), black),
{
    let ghost segs = segments.deep_view();
    let mut out = String::new();
    let mut i: usize = 0;
    proof {
        assert(segs.take(0) =~= Seq::<SegView>::empty());
    }
    while i < segments.len()
        invariant
            i <= segments.len(),
            segments.deep_view() == segs,
            segments@.len() == segs.len(),
            out@ == rendered_of(segs.take(i as int)),
        decreases segments.len() - i,
    {
        proof {
            assert(segments.deep_view()[i as int] == segments@[i as int]@);
            assert(segs.take(i as int + 1).drop_last() =~= segs.take(i as int));
            assert(segs.take(i as int + 1).last() == segs[i as int]);
        }
        let chunk = paint_segment(segments[i].text.as_str(), segments[i].fg, segments[i].bg);
        out.append(chunk.as_str());
        i += 1;
    }
    proof {
        assert(segs.take(segs.len() as int) =~= segs);
    }
    let fill = fill_sequence(black);
    out.append(fill.as_str());
    out
}

} // verus!
