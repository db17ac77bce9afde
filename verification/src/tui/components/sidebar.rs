//! The sidebar: the list of sections, in the order they are shown.

use crate::text::{decimal, format_number};
use crate::tui::menu::{sections, Focus, MenuItem};
use crate::tui::style::{
    inverted, line_views, strong, tinted, Color, LineStyle, LineView, StyledLine,
};
use vstd::prelude::*;
use vstd::string::StringExecFns;

verus! {

/// The sidebar.
#[derive(Debug)]
pub struct Sidebar {
    items: Vec<MenuItem>,
}

impl View for Sidebar {
    type V = Seq<MenuItem>;

    closed spec fn view(&self) -> Seq<MenuItem> {
        self.items@
    }
}

/// The title of the sidebar.
pub open spec fn sidebar_title() -> Seq<char> {
    "Resume Builder"@
}

/// The style of a section in the sidebar: the active section stands out,
/// and more so while the sidebar has the focus.
pub open spec fn item_style(active: bool, focus: Focus) -> LineStyle {
    if active {
        if focus == Focus::Sidebar {
            inverted(Color::LightMagenta)
        } else {
            strong(Color::LightMagenta)
        }
    } else {
        tinted(Color::White)
    }
}

/// The line of the section at position `i` of `items`: its number,
/// counting from one, and its title.
pub open spec fn item_line(items: Seq<MenuItem>, current: MenuItem, focus: Focus, i: int) -> LineView {
    LineView {
        text: decimal((i + 1) as nat) + " "@ + items[i].title_text(),
        style: item_style(items[i] == current, focus),
    }
}

/// The lines of a sidebar that lists `items`.
pub open spec fn sidebar_lines(items: Seq<MenuItem>, current: MenuItem, focus: Focus) -> Seq<
    LineView,
> {
    Seq::new(items.len(), |i: int| item_line(items, current, focus, i))
}

/// The style of the border of the sidebar.
pub open spec fn sidebar_border(focus: Focus) -> LineStyle {
    if focus == Focus::Sidebar {
        tinted(Color::Magenta)
    } else {
        tinted(Color::White)
    }
}

impl Sidebar {
    /// A sidebar that lists all sections in their order.
    pub fn new() -> (sidebar: Sidebar)
        ensures
            sidebar@ == sections(),
    {
        Sidebar { items: MenuItem::all() }
    }

    /// The sections listed, in order.
    pub fn items(&self) -> (items: &Vec<MenuItem>)
        ensures
            items@ == self@,
    {
        &self.items
    }

    /// The lines of the sidebar: one for each section.
    pub fn render(&self, current_menu: &MenuItem, focus: &Focus) -> (lines: Vec<StyledLine>)
        ensures
            line_views(lines@) == sidebar_lines(self@, *current_menu, *focus),
    {
        let mut lines: Vec<StyledLine> = Vec::new();
        let mut i: usize = 0;
        while i < self.items.len()
            invariant
                i <= self.items.len(),
                lines.len() == i,
                forall|k: int|
                    0 <= k < i ==> (#[trigger] lines@[k])@ == item_line(
                        self.items@,
                        *current_menu,
                        *focus,
                        k,
                    ),
            decreases self.items.len() - i,
        {
            let item = self.items[i];
            let mut text = format_number(i as u128 + 1);
            text.append(" ");
            text.append(item.title());
            let style = if item == *current_menu {
                if *focus == Focus::Sidebar {
                    LineStyle::bold_reversed(Color::LightMagenta)
                } else {
                    LineStyle::bold(Color::LightMagenta)
                }
            } else {
                LineStyle::fg(Color::White)
            };
            lines.push(StyledLine::new(text, style));
            i += 1;
        }
        lines
    }

    /// The title of the sidebar.
    pub fn title(&self) -> (title: &'static str)
        ensures
            title@ == sidebar_title(),
    {
        "Resume Builder"
    }

    /// The style of the border of the sidebar: highlighted while the
    /// sidebar has the focus.
    pub fn border_style(&self, focus: &Focus) -> (style: LineStyle)
        ensures
            style == sidebar_border(*focus),
    {
        if *focus == Focus::Sidebar {
            LineStyle::fg(Color::Magenta)
        } else {
            LineStyle::fg(Color::White)
        }
    }
}

} // verus!
