//! The list as lines of text.
//!
//! An entry reads `Milk [1] - NOT BOUGHT`; in the list each entry stands
//! behind its position, counted from zero: `0: Milk [1] - NOT BOUGHT`.

use vstd::prelude::*;
use vstd::string::*;
use crate::item::{ItemView, ListItem};
use crate::number::{decimal, decimal_text};
use crate::paint::{paint, painted, Color, Style};

verus! {

/// The word for an entry's state.
pub open spec fn status_text(bought: bool) -> Seq<char> {
    if bought {
        "BOUGHT"@
    } else {
        "NOT BOUGHT"@
    }
}

/// The colour of an entry's state: green once bought, yellow before.
pub open spec fn status_color(bought: bool) -> Color {
    if bought {
        Color::Green
    } else {
        Color::Yellow
    }
}

/// The text of an entry: name, count in square brackets, a dash, and the
/// state. Only the state is coloured.
pub open spec fn item_text(item: ItemView, style: Style) -> Seq<char> {
    item.name + " ["@ + decimal(item.count) + "] - "@ + painted(
        style,
        status_color(item.bought),
        status_text(item.bought),
    )
}

/// The line of the entry at `position`.
pub open spec fn line_text(position: nat, item: ItemView, style: Style) -> Seq<char> {
    decimal(position) + ": "@ + item_text(item, style)
}

/// The lines of a list: one for each entry, in the order of the list.
pub open spec fn list_lines(items: Seq<ItemView>, style: Style) -> Seq<Seq<char>> {
    Seq::new(items.len(), |i: int| line_text(i as nat, items[i], style))
}

impl ListItem {
    /// The text of the entry in `style`.
    pub fn render(&self, style: Style) -> (text: String)
        ensures
            text@ == item_text(self@, style),
    {
        let mut text = self.name.clone();
        text.append(" [");
        text.append(decimal_text(self.count as u64).as_str());
        text.append("] - ");
        let status = if self.bought {
            paint(style, Color::Green, "BOUGHT")
        } else {
            paint(style, Color::Yellow, "NOT BOUGHT")
        };
        text.append(status.as_str());
        text
    }

    /// The text of the entry, without colour.
    pub fn to_string(&self) -> (text: String)
        ensures
            text@ == item_text(self@, Style::Plain),
    {
        self.render(Style::Plain)
    }
}

/// The line of the entry `item` at `position`.
pub fn render_line(position: usize, item: &ListItem, style: Style) -> (line: String)
    ensures
        line@ == line_text(position as nat, item@, style),
{
    let mut line = decimal_text(position as u64);
    line.append(": ");
    line.append(item.render(style).as_str());
    line
}

/// The lines that show the list.
pub fn render_list(list: &Vec<ListItem>, style: Style) -> (lines: Vec<String>)
    ensures
        lines.deep_view() == list_lines(list.deep_view(), style),
{
    let mut lines: Vec<String> = Vec::new();
    let mut i: usize = 0;
    while i < list.len()
        invariant
            i <= list.len(),
            lines.len() == i,
            forall|j: int|
                0 <= j < i ==> (#[trigger] lines@[j])@ == line_text(
                    j as nat,
                    list.deep_view()[j],
                    style,
                ),
        decreases list.len() - i,
    {
        lines.push(render_line(i, &list[i], style));
        i += 1;
    }
    lines
}

} // verus!
