//! Lines of text with a style, as plain values: what a frame is made of
//! before anything is drawn.

use vstd::prelude::*;
use vstd::string::StringExecFns;

verus! {

/// A foreground colour.
#[derive(Debug, Clone, Copy, PartialEq, Eq, Structural)]
pub enum Color {
    DarkGray,
    Red,
    Green,
    Yellow,
    Magenta,
    Cyan,
    White,
    LightMagenta,
}

/// How a line is drawn. Without a colour the terminal's own is used.
#[derive(Debug, Clone, Copy, PartialEq, Eq, Structural)]
pub struct LineStyle {
    pub color: Option<Color>,
    pub bold: bool,
    pub reversed: bool,
}

/// One line of a frame.
#[derive(Debug)]
pub struct StyledLine {
    pub text: String,
    pub style: LineStyle,
}

/// What a [`StyledLine`] holds.
pub struct LineView {
    pub text: Seq<char>,
    pub style: LineStyle,
}

impl View for StyledLine {
    type V = LineView;

    open spec fn view(&self) -> LineView {
        LineView { text: self.text@, style: self.style }
    }
}

/// What a sequence of lines holds.
pub open spec fn line_views(lines: Seq<StyledLine>) -> Seq<LineView> {
    lines.map_values(|l: StyledLine| l@)
}

/// The style that changes nothing.
pub open spec fn unstyled() -> LineStyle {
    LineStyle { color: None, bold: false, reversed: false }
}

/// A colour and nothing else.
pub open spec fn tinted(color: Color) -> LineStyle {
    LineStyle { color: Some(color), bold: false, reversed: false }
}

/// A colour in bold.
pub open spec fn strong(color: Color) -> LineStyle {
    LineStyle { color: Some(color), bold: true, reversed: false }
}

/// A colour in bold with foreground and background exchanged.
pub open spec fn inverted(color: Color) -> LineStyle {
    LineStyle { color: Some(color), bold: true, reversed: true }
}

/// A line of `text` without a style.
pub open spec fn text_line(text: Seq<char>) -> LineView {
    LineView { text, style: unstyled() }
}

/// An empty line.
pub open spec fn blank_line() -> LineView {
    text_line(""@)
}

/// A line of `text` in `color`.
pub open spec fn tinted_line(text: Seq<char>, color: Color) -> LineView {
    LineView { text, style: tinted(color) }
}

impl LineStyle {
    /// The style that changes nothing.
    pub fn plain() -> (style: LineStyle)
        ensures
            style == unstyled(),
    {
        LineStyle { color: None, bold: false, reversed: false }
    }

    /// A colour and nothing else.
    pub fn fg(color: Color) -> (style: LineStyle)
        ensures
            style == tinted(color),
    {
        LineStyle { color: Some(color), bold: false, reversed: false }
    }

    /// A colour in bold.
    pub fn bold(color: Color) -> (style: LineStyle)
        ensures
            style == strong(color),
    {
        LineStyle { color: Some(color), bold: true, reversed: false }
    }

    /// A colour in bold with foreground and background exchanged.
    pub fn bold_reversed(color: Color) -> (style: LineStyle)
        ensures
            style == inverted(color),
    {
        LineStyle { color: Some(color), bold: true, reversed: true }
    }
}

impl StyledLine {
    /// A line of `text` drawn in `style`.
    pub fn new(text: String, style: LineStyle) -> (line: StyledLine)
        ensures
            line@ == (LineView { text: text@, style }),
    {
        StyledLine { text, style }
    }

    /// A line of `text` without a style.
    pub fn plain(text: &str) -> (line: StyledLine)
        ensures
            line@ == text_line(text@),
    {
        StyledLine { text: String::from_str(text), style: LineStyle::plain() }
    }

    /// A line of `text` in `color`.
    pub fn colored(text: &str, color: Color) -> (line: StyledLine)
        ensures
            line@ == tinted_line(text@, color),
    {
        StyledLine { text: String::from_str(text), style: LineStyle::fg(color) }
    }

    /// The line `prefix` followed by `text`, without a style.
    pub fn labelled(prefix: &str, text: &str) -> (line: StyledLine)
        ensures
            line@ == text_line(prefix@ + text@),
    {
        let mut whole = String::from_str(prefix);
        whole.append(text);
        StyledLine { text: whole, style: LineStyle::plain() }
    }
}

} // verus!
