//! A screen with a list of named items, one of them selected, and the item
//! that was confirmed last.

use crate::keys::{Flow, KeyCode, KeyPress};
use crate::selectable_list::{next_selection, previous_selection, SelectableList};
use vstd::prelude::*;
use vstd::string::*;

verus! {

/// The selection after a keyboard event on a list of `len` items: the arrow
/// keys going down move it up and down; anything else keeps it.
pub open spec fn selection_after(selected: Option<int>, len: int, event: KeyPress) -> Option<int> {
    if !event.spec_is_press() {
        selected
    } else if event.code == KeyCode::Up {
        previous_selection(selected, len)
    } else if event.code == KeyCode::Down {
        next_selection(selected, len)
    } else {
        selected
    }
}

/// The list and the item that was confirmed last.
pub struct ListScreen {
    pub list: SelectableList<String>,
    pub last_confirmed: Option<String>,
}

impl ListScreen {
    /// The names of the items.
    pub open spec fn names(&self) -> Seq<Seq<char>> {
        self.list.items@.map_values(|name: String| name@)
    }

    /// The name that was confirmed last, if any.
    pub open spec fn confirmed(&self) -> Option<Seq<char>> {
        match self.last_confirmed {
            Some(name) => Some(name@),
            None => None,
        }
    }

    /// A screen with four items, the first of them selected, and nothing
    /// confirmed.
    pub fn new() -> (screen: ListScreen)
        ensures
            screen.names() == seq!["Item1"@, "Item2"@, "Item3"@, "Item4"@],
            screen.list.selection() == Some(0int),
            screen.list.wf(),
            screen.confirmed() is None,
    {
        let mut items: Vec<String> = Vec::new();
        items.push(String::from_str("Item1"));
        items.push(String::from_str("Item2"));
        items.push(String::from_str("Item3"));
        items.push(String::from_str("Item4"));
        let screen = ListScreen { list: SelectableList::new(items), last_confirmed: None };
        assert(screen.names() =~= seq!["Item1"@, "Item2"@, "Item3"@, "Item4"@]);
        screen
    }

    /// Confirms the selected item: its name becomes the one confirmed last.
    /// With nothing selected the confirmed name stays.
    pub fn confirm(&mut self)
        ensures
            final(self).list == old(self).list,
            final(self).confirmed() == match old(self).list.selection() {
                Some(i) if i < old(self).names().len() => Some(old(self).names()[i]),
                _ => old(self).confirmed(),
            },
    {
        match self.list.current() {
            Some(name) => {
                self.last_confirmed = Some(name.clone());
            },
            None => {},
        }
    }

    /// Takes one event of the keyboard and says whether the application goes
    /// on: `q` or escape going down end it.
    pub fn handle_key(&mut self, event: KeyPress) -> (flow: Flow)
        ensures
            flow == if event.spec_is_press() && event.spec_asks_to_quit() {
                Flow::Quit
            } else {
                Flow::Continue
            },
            final(self).list.items == old(self).list.items,
            final(self).list.selection() == selection_after(
                old(self).list.selection(),
                old(self).list.items@.len() as int,
                event,
            ),
            final(self).last_confirmed == old(self).last_confirmed,
    {
        if !event.is_press() {
            return Flow::Continue;
        }
        if event.asks_to_quit() {
            return Flow::Quit;
        }
        match event.code {
            KeyCode::Up => self.list.previous(),
            KeyCode::Down => self.list.next(),
            _ => {},
        }
        Flow::Continue
    }
}

} // verus!
