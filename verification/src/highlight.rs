//! A plain-value model of highlighted text.
//!
//! A highlighting engine reports, per line, a list of styled character
//! ranges; this module converts those styles to the terminal style model
//! and slices the line into styled spans. The engine's own parsing is an
//! external concern; everything decided on its reported ranges is verified.

use vstd::prelude::*;

verus! {

/// The attribute bit for bold text in [`SynStyle::font_style`].
pub const FONT_BOLD: u8 = 1;

/// The attribute bit for underlined text in [`SynStyle::font_style`].
pub const FONT_UNDERLINE: u8 = 2;

/// The attribute bit for italic text in [`SynStyle::font_style`].
pub const FONT_ITALIC: u8 = 4;

/// A highlighting style as the engine reports it: a foreground colour and
/// packed attribute bits.
#[derive(Clone, Copy, PartialEq, Eq, Structural, Debug)]
pub struct SynStyle {
    pub fg_r: u8,
    pub fg_g: u8,
    pub fg_b: u8,
    pub font_style: u8,
}

/// A terminal style: a foreground colour and unpacked attribute flags.
#[derive(Clone, Copy, PartialEq, Eq, Structural, Debug)]
pub struct TuiStyle {
    pub fg_r: u8,
    pub fg_g: u8,
    pub fg_b: u8,
    pub bold: bool,
    pub italic: bool,
    pub underline: bool,
}

/// Converts a reported highlighting style to the terminal style: the
/// colour carries over and each attribute bit becomes its flag.
pub fn syntact_style_to_tui(style: &SynStyle) -> (r: TuiStyle)
    ensures
        r.fg_r == style.fg_r,
        r.fg_g == style.fg_g,
        r.fg_b == style.fg_b,
        r.bold == (style.font_style & FONT_BOLD != 0),
        r.underline == (style.font_style & FONT_UNDERLINE != 0),
        r.italic == (style.font_style & FONT_ITALIC != 0),
{
    TuiStyle {
        fg_r: style.fg_r,
        fg_g: style.fg_g,
        fg_b: style.fg_b,
        bold: style.font_style & FONT_BOLD != 0,
        italic: style.font_style & FONT_ITALIC != 0,
        underline: style.font_style & FONT_UNDERLINE != 0,
    }
}

/// One styled character range of one line, as the engine reported it.
#[derive(Clone, Copy, PartialEq, Eq, Structural, Debug)]
pub struct StyledRange {
    pub style: SynStyle,
    pub line: usize,
    pub start: usize,
    pub end: usize,
}

/// One styled slice of a line's text.
#[derive(Debug, Clone)]
pub struct StyledSpan {
    pub content: String,
    pub style: TuiStyle,
}

/// Whether every reported range fits inside a line of `len` characters.
pub open spec fn ranges_within(items: Seq<StyledRange>, len: int) -> bool {
    forall|j: int| 0 <= j < items.len() ==> items[j].start <= items[j].end && items[j].end <= len
}

/// Slices one line into its styled spans: span `j` is the text of range
/// `j` under the converted style. `None` reports a range that does not fit
/// the line.
pub fn styled_spans_for_line(line: &str, items: &Vec<StyledRange>) -> (r: Option<Vec<StyledSpan>>)
    ensures
        r is Some <==> ranges_within(items@, line@.len() as int),
        r matches Some(spans) ==> spans@.len() == items@.len() && forall|j: int|
            0 <= j < items@.len() ==> spans@[j].content@ == line@.subrange(
                items@[j].start as int,
                items@[j].end as int,
            ) && spans@[j].style.fg_r == items@[j].style.fg_r && spans@[j].style.fg_g
                == items@[j].style.fg_g && spans@[j].style.fg_b == items@[j].style.fg_b
                && spans@[j].style.bold == (items@[j].style.font_style & FONT_BOLD != 0)
                && spans@[j].style.underline == (items@[j].style.font_style & FONT_UNDERLINE != 0)
                && spans@[j].style.italic == (items@[j].style.font_style & FONT_ITALIC != 0),
{
    let len: usize = line.unicode_len();
    let mut spans: Vec<StyledSpan> = Vec::new();
    let mut j: usize = 0;
    while j < items.len()
        invariant
            j <= items@.len(),
            len == line@.len(),
            spans@.len() == j,
            forall|k: int| 0 <= k < j ==> items@[k].start <= items@[k].end && items@[k].end <= len,
            forall|k: int|
                0 <= k < j ==> spans@[k].content@ == line@.subrange(
                    items@[k].start as int,
                    items@[k].end as int,
                ) && spans@[k].style.fg_r == items@[k].style.fg_r && spans@[k].style.fg_g
                    == items@[k].style.fg_g && spans@[k].style.fg_b == items@[k].style.fg_b
                    && spans@[k].style.bold == (items@[k].style.font_style & FONT_BOLD != 0)
                    && spans@[k].style.underline == (items@[k].style.font_style & FONT_UNDERLINE
                    != 0) && spans@[k].style.italic == (items@[k].style.font_style & FONT_ITALIC
                    != 0),
        decreases items@.len() - j,
    {
        let item: StyledRange = items[j];
        if !(item.start <= item.end && item.end <= len) {
            return None;
        }
        let content: &str = line.substring_char(item.start, item.end);
        spans.push(StyledSpan { content: content.to_owned(), style: syntact_style_to_tui(&item.style) });
        j = j + 1;
    }
    Some(spans)
}

} // verus!
