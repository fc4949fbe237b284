//! Colours and inline-style helpers.
//!
//! The colours themselves are not chosen here: they come from the shared
//! studio palette, handed in as a [`Palette`], so this editor, the mixer
//! and the DAW theme move together. What lives here is which palette
//! entry each thing uses and how the inline styles are spelled.
use vstd::prelude::*;

use crate::text::chars_of;

verus! {

/// The palette entries the editor's chrome and roll are drawn in.
#[derive(Clone, Copy, Debug)]
pub struct Palette {
    /// A control's resting surface.
    pub control: &'static str,
    /// An engaged control.
    pub control_active: &'static str,
    pub accent: &'static str,
    pub selected: &'static str,
    pub panel_border: &'static str,
    pub text: &'static str,
    pub text_dim: &'static str,
    /// Twelve pitch-class hues, C first.
    pub pitch_classes: [&'static str; 12],
}

/// The pitch class of a row: C is 0, and every octave repeats.
pub open spec fn pitch_class(row: i32) -> int {
    (row as int) % 12
}

/// Whether a row is a black key on the keyboard.
pub open spec fn black_key(row: i32) -> bool {
    let c = pitch_class(row);
    c == 1 || c == 3 || c == 6 || c == 8 || c == 10
}

fn pitch_class_of(row: i32) -> (c: usize)
    ensures
        c == pitch_class(row),
        c < 12,
{
    let r: i32 = row % 12;
    if r < 0 {
        (r + 12) as usize
    } else {
        r as usize
    }
}

/// Notes are coloured by pitch class so a melodic shape is readable at a
/// glance; every octave of a pitch class shares one hue.
pub fn pitch_class_color(palette: &Palette, row: i32) -> (c: &'static str)
    ensures
        c == palette.pitch_classes@[pitch_class(row)],
{
    palette.pitch_classes[pitch_class_of(row)]
}

pub fn is_black_key(row: i32) -> (b: bool)
    ensures
        b == black_key(row),
{
    let c = pitch_class_of(row);
    c == 1 || c == 3 || c == 6 || c == 8 || c == 10
}

/// The keyboard repeats every octave: a row and the row twelve above it
/// are the same kind of key, and share a hue.
pub proof fn keys_repeat_by_octave(row: i32)
    requires
        row <= i32::MAX - 12,
    ensures
        black_key(row) == black_key((row + 12) as i32),
        pitch_class(row) == pitch_class((row + 12) as i32),
{
}

/// Two black keys are never neighbours, and an octave holds exactly five.
pub proof fn black_keys_are_separated(row: i32)
    requires
        row < i32::MAX,
    ensures
        black_key(row) ==> !black_key((row + 1) as i32),
{
}

/// Five black keys to an octave.
pub proof fn five_black_keys_per_octave(row: i32)
    requires
        pitch_class(row) == 0,
        row <= i32::MAX - 11,
    ensures
        ({
            let count = |k: int| if black_key((row + k) as i32) { 1int } else { 0int };
            count(0) + count(1) + count(2) + count(3) + count(4) + count(5) + count(6) + count(7)
                + count(8) + count(9) + count(10) + count(11) == 5
        }),
{
}

/// A toolbar button's inline style.
pub open spec fn button_style_text(p: Palette, active: bool) -> Seq<char> {
    let (bg, border, fg) = if active {
        (p.control_active, p.accent, p.selected)
    } else {
        (p.control, p.panel_border, p.text)
    };
    "display: flex; align-items: center; justify-content: center; gap: 4px; min-width: 26px; height: 26px; padding: 0 7px; background: "@
        + bg@ + "; border: 1px solid "@ + border@ + "; border-radius: 5px; color: "@ + fg@
        + "; font-size: 11px; line-height: 1; cursor: pointer; user-select: none;"@
}

/// A toolbar button, active or not.
pub fn button_style(palette: &Palette, active: bool) -> (s: String)
    ensures
        s@ == button_style_text(*palette, active),
{
    let (bg, border, fg) = if active {
        (palette.control_active, palette.accent, palette.selected)
    } else {
        (palette.control, palette.panel_border, palette.text)
    };
    let mut s = String::from_str(
        "display: flex; align-items: center; justify-content: center; gap: 4px; min-width: 26px; height: 26px; padding: 0 7px; background: ",
    );
    s.append(bg);
    s.append("; border: 1px solid ");
    s.append(border);
    s.append("; border-radius: 5px; color: ");
    s.append(fg);
    s.append("; font-size: 11px; line-height: 1; cursor: pointer; user-select: none;");
    s
}

/// A labelled group in the toolbar.
pub fn group_style(palette: &Palette) -> (s: String)
    ensures
        s@ == "display: flex; align-items: center; gap: 4px; padding: 0 8px; border-right: 1px solid "@
            + palette.panel_border@ + ";"@,
{
    let mut s = String::from_str(
        "display: flex; align-items: center; gap: 4px; padding: 0 8px; border-right: 1px solid ",
    );
    s.append(palette.panel_border);
    s.append(";");
    s
}

pub fn group_label_style(palette: &Palette) -> (s: String)
    ensures
        s@ == "color: "@ + palette.text_dim@
            + "; font-size: 9px; letter-spacing: 0.08em; text-transform: uppercase; margin-right: 2px; user-select: none;"@,
{
    let mut s = String::from_str("color: ");
    s.append(palette.text_dim);
    s.append(
        "; font-size: 9px; letter-spacing: 0.08em; text-transform: uppercase; margin-right: 2px; user-select: none;",
    );
    s
}

pub fn select_style(palette: &Palette) -> (s: String)
    ensures
        s@ == "height: 26px; background: "@ + palette.control@ + "; border: 1px solid "@
            + palette.panel_border@ + "; border-radius: 5px; color: "@ + palette.text@
            + "; font-size: 11px; padding: 0 6px;"@,
{
    let mut s = String::from_str("height: 26px; background: ");
    s.append(palette.control);
    s.append("; border: 1px solid ");
    s.append(palette.panel_border);
    s.append("; border-radius: 5px; color: ");
    s.append(palette.text);
    s.append("; font-size: 11px; padding: 0 6px;");
    s
}

/// An ASCII hexadecimal digit.
pub open spec fn is_hex_digit(c: char) -> bool {
    ('0' <= c && c <= '9') || ('a' <= c && c <= 'f') || ('A' <= c && c <= 'F')
}

/// An ASCII letter or digit.
pub open spec fn is_alnum(c: char) -> bool {
    ('0' <= c && c <= '9') || ('a' <= c && c <= 'z') || ('A' <= c && c <= 'Z')
}

/// How many hex digits run on from position `i` of `s`.
pub open spec fn hex_run(s: Seq<char>, i: int) -> nat
    decreases s.len() - i,
{
    if 0 <= i < s.len() && is_hex_digit(s[i]) {
        1 + hex_run(s, i + 1)
    } else {
        0
    }
}

/// A `#` at `i` followed by exactly 3, 6 or 8 hex digits and then the end
/// of the line or something that is not a letter or digit: a CSS colour.
pub open spec fn colour_at(s: Seq<char>, i: int) -> bool {
    &&& 0 <= i < s.len()
    &&& s[i] == '#'
    &&& {
        let n = hex_run(s, i + 1);
        &&& (n == 3 || n == 6 || n == 8)
        &&& (i + 1 + n >= s.len() || !is_alnum(s[i + 1 + n]))
    }
}

/// Whether a line of source writes a CSS colour literal.
pub open spec fn writes_colour(s: Seq<char>) -> bool {
    exists|i: int| colour_at(s, i)
}

fn char_is_hex_digit(c: char) -> (b: bool)
    ensures
        b == is_hex_digit(c),
{
    ('0' <= c && c <= '9') || ('a' <= c && c <= 'f') || ('A' <= c && c <= 'F')
}

fn char_is_alnum(c: char) -> (b: bool)
    ensures
        b == is_alnum(c),
{
    ('0' <= c && c <= '9') || ('a' <= c && c <= 'z') || ('A' <= c && c <= 'Z')
}

/// `#` followed by exactly 3, 6 or 8 hex digits — a CSS colour.
///
/// Deliberately not a looser rule: SVG path data is full of hex-ish
/// tokens, and CSS ids would false-positive on one.
pub fn is_hex_literal(line: &str) -> (b: bool)
    ensures
        b == writes_colour(line@),
{
    let s = chars_of(line);
    let len = s.len();
    let mut i: usize = 0;
    while i < len
        invariant
            len == s@.len(),
            s@ == line@,
            i <= len,
            forall|k: int| 0 <= k < i ==> !colour_at(s@, k),
        decreases len - i,
    {
        if s[i] == '#' {
            let mut n: usize = 0;
            while i + 1 + n < len && char_is_hex_digit(s[i + 1 + n])
                invariant
                    len == s@.len(),
                    i < len,
                    i + 1 + n <= len,
                    hex_run(s@, (i + 1) as int) == n + hex_run(s@, (i + 1 + n) as int),
                decreases len - (i + 1 + n),
            {
                proof {
                    assert(hex_run(s@, (i + 1 + n) as int) == 1 + hex_run(s@, (i + 2 + n) as int));
                }
                n = n + 1;
            }
            assert(hex_run(s@, (i + 1 + n) as int) == 0);
            let terminated = i + 1 + n >= len || !char_is_alnum(s[i + 1 + n]);
            if (n == 3 || n == 6 || n == 8) && terminated {
                assert(colour_at(s@, i as int));
                return true;
            }
            assert(!colour_at(s@, i as int));
        }
        i = i + 1;
    }
    false
}

} // verus!
