//! The entries of the list and their mathematical model.

use vstd::prelude::*;

verus! {

/// One entry of the shopping list: what to buy, how many, and whether it
/// is already in the basket.
#[derive(Debug, Clone, PartialEq, Eq)]
pub struct ListItem {
    pub name: String,
    pub count: u16,
    pub bought: bool,
}

/// What a `ListItem` stands for in contracts.
pub struct ItemView {
    pub name: Seq<char>,
    pub count: nat,
    pub bought: bool,
}

impl View for ListItem {
    type V = ItemView;

    open spec fn view(&self) -> ItemView {
        ItemView { name: self.name@, count: self.count as nat, bought: self.bought }
    }
}

impl DeepView for ListItem {
    type V = ItemView;

    open spec fn deep_view(&self) -> ItemView {
        self@
    }
}

/// An entry of `count` of `name` that is not bought.
pub open spec fn unbought(name: Seq<char>, count: nat) -> ItemView {
    ItemView { name, count, bought: false }
}

/// Every entry of the list is bought. Holds of the empty list.
pub open spec fn all_bought(items: Seq<ItemView>) -> bool {
    forall|i: int| 0 <= i < items.len() ==> (#[trigger] items[i]).bought
}

impl ListItem {
    /// A new entry that is not bought yet.
    pub fn new(name: &str, count: u16) -> (item: ListItem)
        ensures
            item@ == unbought(name@, count as nat),
    {
        ListItem { name: name.to_owned(), count, bought: false }
    }
}

/// The entries that a session starts with.
pub open spec fn seed_items() -> Seq<ItemView> {
    seq![
        ItemView { name: "Milk"@, count: 1, bought: false },
        ItemView { name: "Eggs"@, count: 10, bought: false },
        ItemView { name: "Rohlik"@, count: 5, bought: true },
    ]
}

/// The list that a session starts with: milk and eggs still to buy, and
/// rolls already bought.
pub fn seed_list() -> (list: Vec<ListItem>)
    ensures
        list.deep_view() == seed_items(),
{
    let mut list: Vec<ListItem> = Vec::new();
    list.push(ListItem::new("Milk", 1));
    list.push(ListItem::new("Eggs", 10));
    list.push(ListItem { name: "Rohlik".to_owned(), count: 5, bought: true });
    list
}

/// Tells whether every entry of `list` is bought.
pub fn is_all_bought(list: &Vec<ListItem>) -> (all: bool)
    ensures
        all == all_bought(list.deep_view()),
{
    let mut i: usize = 0;
    while i < list.len()
        invariant
            i <= list.len(),
            forall|j: int| 0 <= j < i ==> (#[trigger] list.deep_view()[j]).bought,
        decreases list.len() - i,
    {
        if !list[i].bought {
            assert(!list.deep_view()[i as int].bought);
            return false;
        }
        i += 1;
    }
    true
}

} // verus!
