use crate::app::state::ListState;
use crate::ui::event::{KeyCode, KeyEvent};
use vstd::prelude::*;

verus! {

/// The number of items of the main menu.
pub const MENU_LEN: usize = 9;

/// What an item of the main menu asks of the application.
#[derive(Clone, Copy, Debug, PartialEq, Eq, Structural)]
pub enum MenuAction {
    AddAuthor,
    AddBook,
    ListBooks,
    BorrowBook,
    ReturnBook,
    ListAuthors,
    Save,
    Load,
    Quit,
    /// Nothing is asked.
    NoAction,
}

/// The action of the menu item at `index`, counted from 0; `NoAction` where the
/// menu has no such item.
pub open spec fn menu_item(index: usize) -> MenuAction {
    if index == 0 {
        MenuAction::AddAuthor
    } else if index == 1 {
        MenuAction::AddBook
    } else if index == 2 {
        MenuAction::ListBooks
    } else if index == 3 {
        MenuAction::BorrowBook
    } else if index == 4 {
        MenuAction::ReturnBook
    } else if index == 5 {
        MenuAction::ListAuthors
    } else if index == 6 {
        MenuAction::Save
    } else if index == 7 {
        MenuAction::Load
    } else if index == 8 {
        MenuAction::Quit
    } else {
        MenuAction::NoAction
    }
}

/// The main menu after the key `key`: its cursor, and what the key asks.
/// The arrows, `j` and `k` move the selection by one item and wrap around;
/// the enter key asks for the selected item; any other key does nothing.
pub open spec fn menu_key(state: ListState, key: KeyEvent) -> (ListState, MenuAction) {
    if key.is_down() {
        (state.next(MENU_LEN as nat), MenuAction::NoAction)
    } else if key.is_up() {
        (state.prev(MENU_LEN as nat), MenuAction::NoAction)
    } else if key.code == KeyCode::Enter {
        (state, menu_item(state.selected))
    } else {
        (state, MenuAction::NoAction)
    }
}

/// The main menu, at work on the cursor that it was given.
pub struct MainMenu<'a> {
    pub state: &'a mut ListState,
}

impl<'a> MainMenu<'a> {
    /// The main menu on the cursor `state`: what the menu does to its cursor
    /// is done to `state`.
    pub fn new(state: &'a mut ListState) -> (menu: Self)
        ensures
            *menu.state == *old(state),
            *final(menu.state) == *final(state),
    {
        MainMenu { state }
    }

    /// The action of the menu item at `index`.
    pub fn item(index: usize) -> (action: MenuAction)
        ensures
            action == menu_item(index),
    {
        match index {
            0 => MenuAction::AddAuthor,
            1 => MenuAction::AddBook,
            2 => MenuAction::ListBooks,
            3 => MenuAction::BorrowBook,
            4 => MenuAction::ReturnBook,
            5 => MenuAction::ListAuthors,
            6 => MenuAction::Save,
            7 => MenuAction::Load,
            8 => MenuAction::Quit,
            _ => MenuAction::NoAction,
        }
    }

    /// Handles one key, and says what it asks of the application.
    pub fn handle_key_event(&mut self, key: KeyEvent) -> (action: MenuAction)
        ensures
            (*final(self).state, action) == menu_key(*old(self).state, key),
            *final(final(self).state) == *final(old(self).state),
    {
        match key.code {
            KeyCode::Down | KeyCode::Char('j') => {
                self.state.select_next(MENU_LEN);
                MenuAction::NoAction
            },
            KeyCode::Up | KeyCode::Char('k') => {
                self.state.select_prev(MENU_LEN);
                MenuAction::NoAction
            },
            KeyCode::Enter => Self::item(self.state.selected),
            _ => MenuAction::NoAction,
        }
    }
}

} // verus!
