//! A shopping list driven by one-line text commands.
//!
//! The list is an ordered `Vec<ListItem>`; commands address its entries by
//! position. Every function here is pure: reading lines, writing files and
//! drawing on the terminal are left to the caller, who is told what to do
//! next by the `Step` that `cli_action` returns.

pub mod command;
pub mod item;
pub mod laws;
pub mod notice;
pub mod number;
pub mod paint;
pub mod render;
pub mod text;

pub use command::{
    add_item, buy_item, cli_action, conclude_export, conclude_import, parse_position, remove_item,
    Action, Step,
};
pub use item::{is_all_bought, seed_list, ListItem};
pub use notice::Notice;
pub use number::{decimal_text, parse_number};
pub use paint::{paint, Color, Style};
pub use render::{render_line, render_list};
pub use text::{is_blank, same_text, tokenize};
