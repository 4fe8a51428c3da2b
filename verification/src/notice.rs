//! The messages for the user.

use vstd::prelude::*;
use vstd::string::*;
use crate::paint::{paint, painted, Color, Style};

verus! {

/// A message for the user.
#[derive(Debug, Clone, PartialEq, Eq)]
pub enum Notice {
    /// The count of an `add` is no number from 0 to 65535.
    InvalidInput,
    /// `buy` on an empty list.
    NothingToBuy,
    /// The position is no number, or there is no entry at it.
    InvalidIndex,
    /// `remove` on an empty list.
    NothingToRemove,
    /// The line is none of the commands, or has the wrong number of words.
    InvalidCommand,
    /// Every entry is bought.
    AllBought,
    /// The list was written to the file.
    Exported { filename: String },
    /// The list could not be written.
    ExportFailed { reason: String },
    /// No list could be read; the list in memory is as it was.
    ImportFailed { reason: String },
}

/// What a `Notice` stands for in contracts.
pub enum NoticeView {
    InvalidInput,
    NothingToBuy,
    InvalidIndex,
    NothingToRemove,
    InvalidCommand,
    AllBought,
    Exported { filename: Seq<char> },
    ExportFailed { reason: Seq<char> },
    ImportFailed { reason: Seq<char> },
}

impl View for Notice {
    type V = NoticeView;

    open spec fn view(&self) -> NoticeView {
        match self {
            Notice::InvalidInput => NoticeView::InvalidInput,
            Notice::NothingToBuy => NoticeView::NothingToBuy,
            Notice::InvalidIndex => NoticeView::InvalidIndex,
            Notice::NothingToRemove => NoticeView::NothingToRemove,
            Notice::InvalidCommand => NoticeView::InvalidCommand,
            Notice::AllBought => NoticeView::AllBought,
            Notice::Exported { filename } => NoticeView::Exported { filename: filename@ },
            Notice::ExportFailed { reason } => NoticeView::ExportFailed { reason: reason@ },
            Notice::ImportFailed { reason } => NoticeView::ImportFailed { reason: reason@ },
        }
    }
}

/// The words of a notice.
pub open spec fn notice_text(notice: NoticeView) -> Seq<char> {
    match notice {
        NoticeView::InvalidInput => "Invalid input"@,
        NoticeView::NothingToBuy => "Nothing to buy"@,
        NoticeView::InvalidIndex => "Invalid index"@,
        NoticeView::NothingToRemove => "Nothing to remove"@,
        NoticeView::InvalidCommand => "Invalid command"@,
        NoticeView::AllBought => "You bought everything you needed!"@,
        NoticeView::Exported { filename } => "List has been exported to "@ + filename,
        NoticeView::ExportFailed { reason } => "Export failed: "@ + reason,
        NoticeView::ImportFailed { reason } => "Import failed: "@ + reason,
    }
}

/// The colour a notice is shown in, if any: green for the good end,
/// yellow for a finished export, red for what went wrong. A rejected
/// count is reported without colour.
pub open spec fn notice_color(notice: NoticeView) -> Option<Color> {
    match notice {
        NoticeView::InvalidInput => None,
        NoticeView::AllBought => Some(Color::Green),
        NoticeView::Exported { .. } => Some(Color::Yellow),
        _ => Some(Color::Red),
    }
}

/// The line that shows a notice in `style`.
pub open spec fn notice_line(notice: NoticeView, style: Style) -> Seq<char> {
    match notice_color(notice) {
        Some(color) => painted(style, color, notice_text(notice)),
        None => notice_text(notice),
    }
}

impl Notice {
    /// The words of the notice, without colour.
    pub fn text(&self) -> (out: String)
        ensures
            out@ == notice_text(self@),
    {
        match self {
            Notice::InvalidInput => String::from_str("Invalid input"),
            Notice::NothingToBuy => String::from_str("Nothing to buy"),
            Notice::InvalidIndex => String::from_str("Invalid index"),
            Notice::NothingToRemove => String::from_str("Nothing to remove"),
            Notice::InvalidCommand => String::from_str("Invalid command"),
            Notice::AllBought => String::from_str("You bought everything you needed!"),
            Notice::Exported { filename } => String::from_str("List has been exported to ").concat(
                filename.as_str(),
            ),
            Notice::ExportFailed { reason } => String::from_str("Export failed: ").concat(
                reason.as_str(),
            ),
            Notice::ImportFailed { reason } => String::from_str("Import failed: ").concat(
                reason.as_str(),
            ),
        }
    }

    /// The line that shows the notice in `style`.
    pub fn message(&self, style: Style) -> (out: String)
        ensures
            out@ == notice_line(self@, style),
    {
        let text = self.text();
        match self {
            Notice::InvalidInput => text,
            Notice::AllBought => paint(style, Color::Green, text.as_str()),
            Notice::Exported { .. } => paint(style, Color::Yellow, text.as_str()),
            _ => paint(style, Color::Red, text.as_str()),
        }
    }
}

} // verus!
