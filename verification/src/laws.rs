//! What holds of every list and every command line.
//!
//! Each statement is about `outcome`, the function by which `cli_action`
//! is specified, so it holds of every call of `cli_action`.

use vstd::prelude::*;
use crate::command::{
    is_count, is_position, lemma_command_words_differ, outcome, ActionView, Outcome, StepView,
};
use crate::item::{all_bought, unbought, ItemView};
use crate::notice::NoticeView;
use crate::number::{decimal, lemma_decimal_reads_back, numeral_value};

verus! {

/// `add name count` with a count from 0 to 65535 makes the list longer by
/// exactly one entry. The new entry is the last one, has that name and
/// count, and is not bought; the entries before it are as they were.
pub proof fn law_add_appends(items: Seq<ItemView>, name: Seq<char>, count: Seq<char>)
    requires
        is_count(count),
    ensures
        ({
            let after = outcome(items, seq!["add"@, name, count]);
            &&& after.items.len() == items.len() + 1
            &&& after.items.last() == unbought(name, numeral_value(count))
            &&& !after.items.last().bought
            &&& after.items.drop_last() == items
            &&& after.step == (StepView { notice: None, action: ActionView::Show })
        }),
{
}

/// `add name count` with anything else for a count leaves the list as it
/// is and is answered with "Invalid input".
pub proof fn law_add_rejects(items: Seq<ItemView>, name: Seq<char>, count: Seq<char>)
    requires
        !is_count(count),
    ensures
        ({
            let after = outcome(items, seq!["add"@, name, count]);
            &&& after.items == items
            &&& after.step == (StepView {
                notice: Some(NoticeView::InvalidInput),
                action: ActionView::Show,
            })
        }),
{
}

/// `buy i` with `i` the position of an entry marks that entry as bought
/// and changes nothing else: not its name or count, not another entry,
/// not the length of the list.
pub proof fn law_buy_marks_one(items: Seq<ItemView>, position: Seq<char>)
    requires
        is_position(position, items.len()),
    ensures
        ({
            let after = outcome(items, seq!["buy"@, position]);
            let i = numeral_value(position) as int;
            &&& after.items.len() == items.len()
            &&& after.items[i].bought
            &&& after.items[i].name == items[i].name
            &&& after.items[i].count == items[i].count
            &&& forall|j: int| 0 <= j < items.len() && j != i ==> after.items[j] == items[j]
            &&& after.step.notice is None
        }),
{
}

/// `buy` with anything but the position of an entry leaves a list that
/// has entries as it is and is answered with "Invalid index".
pub proof fn law_buy_rejects(items: Seq<ItemView>, position: Seq<char>)
    requires
        items.len() > 0,
        !is_position(position, items.len()),
    ensures
        ({
            let after = outcome(items, seq!["buy"@, position]);
            &&& after.items == items
            &&& after.step.notice == Some(NoticeView::InvalidIndex)
        }),
{
}

/// `buy` on the empty list changes nothing and is answered with "Nothing
/// to buy"; the session goes on.
pub proof fn law_buy_on_empty_list(position: Seq<char>)
    ensures
        outcome(Seq::empty(), seq!["buy"@, position]) == (Outcome {
            items: Seq::empty(),
            step: StepView { notice: Some(NoticeView::NothingToBuy), action: ActionView::Show },
        }),
{
}

/// After any `buy` on a list that has entries, whether it marked an entry
/// or not, the session finishes exactly when every entry is bought; if
/// one is not, the list is shown and the session goes on.
pub proof fn law_buy_finishes_when_all_bought(items: Seq<ItemView>, position: Seq<char>)
    requires
        items.len() > 0,
    ensures
        ({
            let after = outcome(items, seq!["buy"@, position]);
            &&& all_bought(after.items) <==> after.step.action == ActionView::Finish
            &&& !all_bought(after.items) <==> after.step.action == ActionView::Show
        }),
{
}

/// `remove i` with `i` the position of an entry makes the list shorter by
/// exactly that entry: the entries before it stay where they are, and
/// those behind it move up by one, in their order.
pub proof fn law_remove_keeps_order(items: Seq<ItemView>, position: Seq<char>)
    requires
        is_position(position, items.len()),
    ensures
        ({
            let after = outcome(items, seq!["remove"@, position]);
            let i = numeral_value(position) as int;
            &&& after.items.len() == items.len() - 1
            &&& forall|j: int| 0 <= j < i ==> after.items[j] == items[j]
            &&& forall|j: int| i <= j < after.items.len() ==> after.items[j] == items[j + 1]
            &&& after.step == (StepView { notice: None, action: ActionView::Show })
        }),
{
    lemma_command_words_differ();
}

/// `remove` with anything but the position of an entry leaves the list as
/// it is. The answer is "Nothing to remove" on the empty list and
/// "Invalid index" on any other.
pub proof fn law_remove_rejects(items: Seq<ItemView>, position: Seq<char>)
    requires
        !is_position(position, items.len()),
    ensures
        ({
            let after = outcome(items, seq!["remove"@, position]);
            &&& after.items == items
            &&& after.step.notice == Some(
                if items.len() == 0 {
                    NoticeView::NothingToRemove
                } else {
                    NoticeView::InvalidIndex
                },
            )
            &&& after.step.action == ActionView::Show
        }),
{
    lemma_command_words_differ();
}

/// The position in front of an entry's line, `decimal(i)`, is the token
/// that addresses that entry in `buy` and `remove`.
pub proof fn law_shown_position_addresses_entry(items: Seq<ItemView>, i: nat)
    requires
        i < items.len(),
    ensures
        is_position(decimal(i), items.len()),
        numeral_value(decimal(i)) == i,
{
    lemma_decimal_reads_back(i);
}

/// `word` is the name of a command.
pub open spec fn is_command_word(word: Seq<char>) -> bool {
    ||| word == "add"@
    ||| word == "buy"@
    ||| word == "remove"@
    ||| word == "list"@
    ||| word == "clear"@
    ||| word == "export"@
    ||| word == "import"@
    ||| word == "exit"@
}

/// How many words a line with the command `word` must have, the command
/// included. `exit` takes any number.
pub open spec fn words_needed(word: Seq<char>) -> nat {
    if word == "add"@ {
        3
    } else if word == "list"@ || word == "clear"@ {
        1
    } else {
        2
    }
}

/// An empty line, a line whose first word names no command, and a command
/// other than `exit` with too few or too many words never change the
/// list; the answer is "Invalid command".
pub proof fn law_invalid_line_changes_nothing(items: Seq<ItemView>, args: Seq<Seq<char>>)
    requires
        args.len() == 0 || !is_command_word(args[0]) || (args[0] != "exit"@ && args.len()
            != words_needed(args[0])),
    ensures
        outcome(items, args) == (Outcome {
            items,
            step: StepView { notice: Some(NoticeView::InvalidCommand), action: ActionView::Show },
        }),
{
    lemma_command_words_differ();
}

/// Only `add`, `buy` and `remove` can change the list: after any other
/// line it is as it was.
pub proof fn law_other_lines_keep_list(items: Seq<ItemView>, args: Seq<Seq<char>>)
    requires
        args.len() == 0 || !(args[0] == "add"@ || args[0] == "buy"@ || args[0] == "remove"@),
    ensures
        outcome(items, args).items == items,
{
}

} // verus!
