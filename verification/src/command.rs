//! The command dispatcher: one tokenized line in, at most one change of the
//! list and one `Step` out.
//!
//! | command  | arguments    | effect                                        |
//! |----------|--------------|-----------------------------------------------|
//! | `add`    | name, count  | appends an entry that is not bought           |
//! | `buy`    | position     | marks the entry as bought                     |
//! | `remove` | position     | takes the entry out                           |
//! | `list`   |              | none                                          |
//! | `clear`  |              | none; the caller clears the screen            |
//! | `export` | file name    | none; the caller writes the list              |
//! | `import` | file name    | none yet; see `conclude_import`               |
//! | `exit`   | anything     | none; the caller stops                        |
//!
//! Any other line is an invalid command and changes nothing.

use vstd::prelude::*;
use vstd::string::*;
use crate::item::{all_bought, is_all_bought, unbought, ItemView, ListItem};
use crate::notice::{Notice, NoticeView};
use crate::number::{is_numeral, numeral_value, parse_number};
use crate::text::same_text;

verus! {

/// The largest count an entry can have.
pub const MAX_COUNT: u64 = 65535;

/// What the caller does after a command, before it reads the next line.
#[derive(Debug, Clone, PartialEq, Eq)]
pub enum Action {
    /// Show the list.
    Show,
    /// Every entry is bought: show the list and `Notice::AllBought`, then
    /// stop with success.
    Finish,
    /// Clear the screen, then show the list.
    Clear,
    /// Write the list to the file, show what `conclude_export` makes of
    /// the result, then show the list.
    Export { filename: String },
    /// Read a list from the file, hand the result to `conclude_import`,
    /// show its notice if it has one, then show the list.
    Import { filename: String },
    /// Stop with success at once.
    Exit,
}

/// What an `Action` stands for in contracts.
pub enum ActionView {
    Show,
    Finish,
    Clear,
    Export { filename: Seq<char> },
    Import { filename: Seq<char> },
    Exit,
}

impl View for Action {
    type V = ActionView;

    open spec fn view(&self) -> ActionView {
        match self {
            Action::Show => ActionView::Show,
            Action::Finish => ActionView::Finish,
            Action::Clear => ActionView::Clear,
            Action::Export { filename } => ActionView::Export { filename: filename@ },
            Action::Import { filename } => ActionView::Import { filename: filename@ },
            Action::Exit => ActionView::Exit,
        }
    }
}

/// The answer to one command: what to tell the user, if anything, and what
/// to do next. The notice comes first.
#[derive(Debug, Clone, PartialEq, Eq)]
pub struct Step {
    pub notice: Option<Notice>,
    pub action: Action,
}

/// What a `Step` stands for in contracts.
pub struct StepView {
    pub notice: Option<NoticeView>,
    pub action: ActionView,
}

impl View for Step {
    type V = StepView;

    open spec fn view(&self) -> StepView {
        StepView {
            notice: match self.notice {
                Some(notice) => Some(notice@),
                None => None,
            },
            action: self.action@,
        }
    }
}

/// A command line, read.
pub enum Command {
    Add { name: Seq<char>, count: Seq<char> },
    Buy { position: Seq<char> },
    Remove { position: Seq<char> },
    List,
    Clear,
    Export { filename: Seq<char> },
    Import { filename: Seq<char> },
    Exit,
    Invalid,
}

/// The command that the words of a line make up. The first word names it
/// and the number of words must fit, except for `exit`, which ignores what
/// follows it.
pub open spec fn command_of(args: Seq<Seq<char>>) -> Command {
    if args.len() == 3 && args[0] == "add"@ {
        Command::Add { name: args[1], count: args[2] }
    } else if args.len() == 2 && args[0] == "buy"@ {
        Command::Buy { position: args[1] }
    } else if args.len() == 2 && args[0] == "remove"@ {
        Command::Remove { position: args[1] }
    } else if args.len() == 1 && args[0] == "list"@ {
        Command::List
    } else if args.len() == 1 && args[0] == "clear"@ {
        Command::Clear
    } else if args.len() == 2 && args[0] == "export"@ {
        Command::Export { filename: args[1] }
    } else if args.len() == 2 && args[0] == "import"@ {
        Command::Import { filename: args[1] }
    } else if args.len() >= 1 && args[0] == "exit"@ {
        Command::Exit
    } else {
        Command::Invalid
    }
}

/// The names of the commands differ from one another: no two agree in
/// both their length and their first letter.
pub proof fn lemma_command_words_differ()
    ensures
        "add"@.len() == 3 && "add"@[0] == 'a',
        "buy"@.len() == 3 && "buy"@[0] == 'b',
        "remove"@.len() == 6 && "remove"@[0] == 'r',
        "list"@.len() == 4 && "list"@[0] == 'l',
        "clear"@.len() == 5 && "clear"@[0] == 'c',
        "export"@.len() == 6 && "export"@[0] == 'e',
        "import"@.len() == 6 && "import"@[0] == 'i',
        "exit"@.len() == 4 && "exit"@[0] == 'e',
{
    reveal_strlit("add");
    reveal_strlit("buy");
    reveal_strlit("remove");
    reveal_strlit("list");
    reveal_strlit("clear");
    reveal_strlit("export");
    reveal_strlit("import");
    reveal_strlit("exit");
}

/// `token` is a count that an entry can have: a numeral from 0 to 65535.
pub open spec fn is_count(token: Seq<char>) -> bool {
    is_numeral(token) && numeral_value(token) <= MAX_COUNT
}

/// `token` is the position of an entry in a list of `len` entries: a
/// numeral below `len`.
pub open spec fn is_position(token: Seq<char>, len: nat) -> bool {
    is_numeral(token) && numeral_value(token) < len
}

/// The list after a command, and the answer to it.
pub struct Outcome {
    pub items: Seq<ItemView>,
    pub step: StepView,
}

/// An outcome that leaves the caller to show the list.
pub open spec fn shown(items: Seq<ItemView>, notice: Option<NoticeView>) -> Outcome {
    Outcome { items, step: StepView { notice, action: ActionView::Show } }
}

/// `add`: a valid count appends an entry that is not bought; any other
/// count changes nothing.
pub open spec fn add_outcome(items: Seq<ItemView>, name: Seq<char>, count: Seq<char>) -> Outcome {
    if is_count(count) {
        shown(items.push(unbought(name, numeral_value(count))), None)
    } else {
        shown(items, Some(NoticeView::InvalidInput))
    }
}

/// The entry, bought.
pub open spec fn bought(item: ItemView) -> ItemView {
    ItemView { name: item.name, count: item.count, bought: true }
}

/// `buy`: on an empty list nothing happens. Otherwise a valid position
/// marks its entry, and whether or not the position was valid, a list
/// that is now bought in full finishes the session.
pub open spec fn buy_outcome(items: Seq<ItemView>, position: Seq<char>) -> Outcome {
    if items.len() == 0 {
        shown(items, Some(NoticeView::NothingToBuy))
    } else {
        let i = numeral_value(position) as int;
        let (after, notice) = if is_position(position, items.len()) {
            (items.update(i, bought(items[i])), None)
        } else {
            (items, Some(NoticeView::InvalidIndex))
        };
        let action = if all_bought(after) {
            ActionView::Finish
        } else {
            ActionView::Show
        };
        Outcome { items: after, step: StepView { notice, action } }
    }
}

/// `remove`: a valid position takes its entry out and the entries behind
/// it move up by one; anything else changes nothing.
pub open spec fn remove_outcome(items: Seq<ItemView>, position: Seq<char>) -> Outcome {
    if items.len() == 0 {
        shown(items, Some(NoticeView::NothingToRemove))
    } else if is_position(position, items.len()) {
        shown(items.remove(numeral_value(position) as int), None)
    } else {
        shown(items, Some(NoticeView::InvalidIndex))
    }
}

/// What a line of words does to a list.
pub open spec fn outcome(items: Seq<ItemView>, args: Seq<Seq<char>>) -> Outcome {
    match command_of(args) {
        Command::Add { name, count } => add_outcome(items, name, count),
        Command::Buy { position } => buy_outcome(items, position),
        Command::Remove { position } => remove_outcome(items, position),
        Command::List => shown(items, None),
        Command::Clear => Outcome {
            items,
            step: StepView { notice: None, action: ActionView::Clear },
        },
        Command::Export { filename } => Outcome {
            items,
            step: StepView { notice: None, action: ActionView::Export { filename } },
        },
        Command::Import { filename } => Outcome {
            items,
            step: StepView { notice: None, action: ActionView::Import { filename } },
        },
        Command::Exit => Outcome {
            items,
            step: StepView { notice: None, action: ActionView::Exit },
        },
        Command::Invalid => shown(items, Some(NoticeView::InvalidCommand)),
    }
}

/// Reads a position in a list of `len` entries.
pub fn parse_position(token: &str, len: usize) -> (position: Option<usize>)
    ensures
        position is Some <==> is_position(token@, len as nat),
        position matches Some(i) ==> i == numeral_value(token@),
{
    if len == 0 {
        return None;
    }
    match parse_number(token, (len - 1) as u64) {
        Some(i) => Some(i as usize),
        None => None,
    }
}

/// Appends `count` of `name` to the list, not bought, if `count` is a
/// number from 0 to 65535. Otherwise the list stays as it is and the
/// answer carries `Notice::InvalidInput`.
pub fn add_item(list: &mut Vec<ListItem>, name: &str, count: &str) -> (step: Step)
    ensures
        is_count(count@) ==> {
            &&& final(list).deep_view() == old(list).deep_view().push(
                unbought(name@, numeral_value(count@)),
            )
            &&& step.notice is None
        },
        !is_count(count@) ==> {
            &&& *final(list) == *old(list)
            &&& step.notice == Some(Notice::InvalidInput)
        },
        step.action == Action::Show,
{
    match parse_number(count, MAX_COUNT) {
        Some(n) => {
            let item = ListItem::new(name, n as u16);
            list.push(item);
            Step { notice: None, action: Action::Show }
        },
        None => Step { notice: Some(Notice::InvalidInput), action: Action::Show },
    }
}

/// Marks the entry at `position` as bought.
///
/// On an empty list nothing happens. On any other list, a position that
/// is no number or has no entry changes nothing and is answered with
/// `Notice::InvalidIndex`; and whatever the position was, the answer is
/// `Action::Finish` exactly when every entry is bought afterwards.
pub fn buy_item(list: &mut Vec<ListItem>, position: &str) -> (step: Step)
    ensures
        old(list).len() == 0 ==> {
            &&& *final(list) == *old(list)
            &&& step.notice == Some(Notice::NothingToBuy)
            &&& step.action == Action::Show
        },
        is_position(position@, old(list).len() as nat) ==> {
            let i = numeral_value(position@) as int;
            &&& final(list).deep_view() == old(list).deep_view().update(
                i,
                bought(old(list).deep_view()[i]),
            )
            &&& step.notice is None
        },
        old(list).len() > 0 && !is_position(position@, old(list).len() as nat) ==> {
            &&& *final(list) == *old(list)
            &&& step.notice == Some(Notice::InvalidIndex)
        },
        old(list).len() > 0 ==> {
            &&& all_bought(final(list).deep_view()) ==> step.action == Action::Finish
            &&& !all_bought(final(list).deep_view()) ==> step.action == Action::Show
        },
{
    if list.len() == 0 {
        return Step { notice: Some(Notice::NothingToBuy), action: Action::Show };
    }
    let notice = match parse_position(position, list.len()) {
        Some(i) => {
            list[i].bought = true;
            assert(list.deep_view() =~= old(list).deep_view().update(
                i as int,
                bought(old(list).deep_view()[i as int]),
            ));
            None
        },
        None => Some(Notice::InvalidIndex),
    };
    let action = if is_all_bought(list) {
        Action::Finish
    } else {
        Action::Show
    };
    Step { notice, action }
}

/// Takes the entry at `position` out of the list; the entries behind it
/// move up by one.
///
/// On an empty list nothing happens. A position that is no number or has
/// no entry changes nothing and is answered with `Notice::InvalidIndex`.
pub fn remove_item(list: &mut Vec<ListItem>, position: &str) -> (step: Step)
    ensures
        old(list).len() == 0 ==> {
            &&& *final(list) == *old(list)
            &&& step.notice == Some(Notice::NothingToRemove)
        },
        is_position(position@, old(list).len() as nat) ==> {
            &&& final(list)@ == old(list)@.remove(numeral_value(position@) as int)
            &&& step.notice is None
        },
        old(list).len() > 0 && !is_position(position@, old(list).len() as nat) ==> {
            &&& *final(list) == *old(list)
            &&& step.notice == Some(Notice::InvalidIndex)
        },
        step.action == Action::Show,
{
    if list.len() == 0 {
        return Step { notice: Some(Notice::NothingToRemove), action: Action::Show };
    }
    let notice = match parse_position(position, list.len()) {
        Some(i) => {
            list.remove(i);
            None
        },
        None => Some(Notice::InvalidIndex),
    };
    Step { notice, action: Action::Show }
}

/// Carries out one command line, given as its words, on the list.
///
/// The list changes as `outcome` says, and the answer tells the caller
/// what to show and what to do before the next line.
pub fn cli_action(args: Vec<&str>, list: &mut Vec<ListItem>) -> (step: Step)
    ensures
        final(list).deep_view() == outcome(old(list).deep_view(), args.deep_view()).items,
        step@ == outcome(old(list).deep_view(), args.deep_view()).step,
{
    let n = args.len();
    if n == 3 && same_text(args[0], "add") {
        add_item(list, args[1], args[2])
    } else if n == 2 && same_text(args[0], "buy") {
        buy_item(list, args[1])
    } else if n == 2 && same_text(args[0], "remove") {
        let step = remove_item(list, args[1]);
        proof {
            if is_position(args[1]@, old(list).len() as nat) {
                assert(list.deep_view() =~= old(list).deep_view().remove(
                    numeral_value(args[1]@) as int,
                ));
            }
        }
        step
    } else if n == 1 && same_text(args[0], "list") {
        Step { notice: None, action: Action::Show }
    } else if n == 1 && same_text(args[0], "clear") {
        Step { notice: None, action: Action::Clear }
    } else if n == 2 && same_text(args[0], "export") {
        Step { notice: None, action: Action::Export { filename: args[1].to_owned() } }
    } else if n == 2 && same_text(args[0], "import") {
        Step { notice: None, action: Action::Import { filename: args[1].to_owned() } }
    } else if n >= 1 && same_text(args[0], "exit") {
        Step { notice: None, action: Action::Exit }
    } else {
        Step { notice: Some(Notice::InvalidCommand), action: Action::Show }
    }
}

/// Turns the result of writing the list to `filename` into the notice for
/// the user. The list is not touched.
pub fn conclude_export(filename: String, written: Result<(), String>) -> (notice: Notice)
    ensures
        match written {
            Ok(_) => notice == (Notice::Exported { filename }),
            Err(reason) => notice == (Notice::ExportFailed { reason }),
        },
{
    match written {
        Ok(_) => Notice::Exported { filename },
        Err(reason) => Notice::ExportFailed { reason },
    }
}

/// Commits an import: a list that was read in full replaces the current
/// one; a failure leaves the current list exactly as it was and comes back
/// as a notice with the reason.
pub fn conclude_import(list: &mut Vec<ListItem>, loaded: Result<Vec<ListItem>, String>) -> (notice:
    Option<Notice>)
    ensures
        match loaded {
            Ok(items) => *final(list) == items && notice is None,
            Err(reason) => *final(list) == *old(list) && notice == Some(
                (Notice::ImportFailed { reason }),
            ),
        },
{
    match loaded {
        Ok(items) => {
            *list = items;
            None
        },
        Err(reason) => Some(Notice::ImportFailed { reason }),
    }
}

} // verus!
