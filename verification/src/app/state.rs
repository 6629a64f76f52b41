use crate::ui::event::{KeyCode, KeyEvent};
use vstd::prelude::*;

verus! {

/// The number of rows that a page key moves the selection by.
pub const PAGE_SIZE: usize = 10;

/// The number of rows of a list that are visible at a time.
pub const VISIBLE_LINES: usize = 15;

/// The text fields of a form screen, and which of them has the focus.
#[derive(Debug, PartialEq, Eq)]
pub struct FormState {
    pub fields: Vec<String>,
    pub focused_field: usize,
}

/// The mathematical value of a [`FormState`].
pub ghost struct FormStateView {
    pub fields: Seq<Seq<char>>,
    pub focused_field: usize,
}

/// The texts of a sequence of strings, in order.
pub open spec fn textes(chaines: Seq<String>) -> Seq<Seq<char>> {
    chaines.map_values(|s: String| s@)
}

impl View for FormState {
    type V = FormStateView;

    open spec fn view(&self) -> FormStateView {
        FormStateView { fields: textes(self.fields@), focused_field: self.focused_field }
    }
}

impl FormStateView {
    /// The form of `n` empty fields, with the focus on the first.
    pub open spec fn vide(n: nat) -> FormStateView {
        FormStateView { fields: Seq::new(n, |i: int| Seq::<char>::empty()), focused_field: 0 }
    }
}

impl FormState {
    /// The form of `n` empty fields, with the focus on the first.
    pub fn vide(n: usize) -> (state: Self)
        ensures
            state@ == FormStateView::vide(n as nat),
    {
        let mut fields: Vec<String> = Vec::new();
        let mut i: usize = 0;
        while i < n
            invariant
                i <= n,
                textes(fields@) == Seq::new(i as nat, |k: int| Seq::<char>::empty()),
            decreases n - i,
        {
            let ghost avant = fields@;
            fields.push(String::new());
            assert(textes(fields@) =~= textes(avant).push(Seq::<char>::empty()));
            i += 1;
        }
        FormState { fields, focused_field: 0 }
    }
}

impl Default for FormState {
    fn default() -> (state: Self)
        ensures
            state@ == FormStateView::vide(0),
    {
        FormState::vide(0)
    }
}

/// The cursor of a list screen: the selected row, and the first visible row.
#[derive(Clone, Copy, Debug, PartialEq, Eq, Structural)]
pub struct ListState {
    pub selected: usize,
    pub scroll_offset: usize,
}

impl Default for ListState {
    fn default() -> (state: Self)
        ensures
            state == (ListState { selected: 0, scroll_offset: 0 }),
    {
        ListState { selected: 0, scroll_offset: 0 }
    }
}

impl ListState {
    /// The cursor with the selection one row down, and on the first row
    /// after the last of `count` rows.
    pub open spec fn next(self, count: nat) -> ListState {
        ListState { selected: ((self.selected + 1) % (count as int)) as usize, ..self }
    }

    /// The cursor with the selection one row up, and on the last of `count`
    /// rows before the first.
    pub open spec fn prev(self, count: nat) -> ListState {
        ListState {
            selected: if self.selected == 0 {
                (count - 1) as usize
            } else {
                (self.selected - 1) as usize
            },
            ..self
        }
    }

    /// The cursor with the selection a page down, and no further than the
    /// last of `count` rows.
    pub open spec fn page_down(self, count: nat) -> ListState {
        ListState {
            selected: if self.selected + PAGE_SIZE <= count - 1 {
                (self.selected + PAGE_SIZE) as usize
            } else {
                (count - 1) as usize
            },
            ..self
        }
    }

    /// The cursor with the selection a page up, and no further than the
    /// first row.
    pub open spec fn page_up(self) -> ListState {
        ListState {
            selected: if self.selected >= PAGE_SIZE {
                (self.selected - PAGE_SIZE) as usize
            } else {
                0
            },
            ..self
        }
    }

    /// The cursor with the window moved so that it shows the selection: down
    /// until the selection is its last row where the selection lies below
    /// it, up to the selection where the selection lies above it.
    pub open spec fn scrolled(self) -> ListState {
        if self.selected >= self.scroll_offset + VISIBLE_LINES {
            ListState { scroll_offset: (self.selected - (VISIBLE_LINES - 1)) as usize, ..self }
        } else if self.selected < self.scroll_offset {
            ListState { scroll_offset: self.selected, ..self }
        } else {
            self
        }
    }

    /// The cursor of a list of `count` rows after the key `key`. Without
    /// rows nothing moves. Else the arrows, `j` and `k` move the selection by
    /// one row and wrap around, the page keys move it by a page and stop at
    /// the ends, any other key leaves it; then the window follows the
    /// selection.
    pub open spec fn navigated(self, key: KeyEvent, count: nat) -> ListState {
        if count == 0 {
            self
        } else if key.is_down() {
            self.next(count).scrolled()
        } else if key.is_up() {
            self.prev(count).scrolled()
        } else if key.code == KeyCode::PageDown {
            self.page_down(count).scrolled()
        } else if key.code == KeyCode::PageUp {
            self.page_up().scrolled()
        } else {
            self.scrolled()
        }
    }

    /// Moves the window so that it shows the selection.
    pub fn scroll(&mut self)
        ensures
            *final(self) == old(self).scrolled(),
    {
        if self.selected >= VISIBLE_LINES && self.selected - VISIBLE_LINES >= self.scroll_offset {
            self.scroll_offset = self.selected - (VISIBLE_LINES - 1);
        } else if self.selected < self.scroll_offset {
            self.scroll_offset = self.selected;
        }
    }

    /// Moves the selection one row down, and to the first row after the last.
    pub fn select_next(&mut self, count: usize)
        requires
            count > 0,
        ensures
            *final(self) == old(self).next(count as nat),
    {
        proof {
            lemme_rang_suivant(self.selected as int, count as int);
        }
        self.selected = (self.selected % count + 1) % count;
    }

    /// Moves the selection one row up, and to the last row before the first.
    pub fn select_prev(&mut self, count: usize)
        requires
            count > 0,
        ensures
            *final(self) == old(self).prev(count as nat),
    {
        if self.selected == 0 {
            self.selected = count - 1;
        } else {
            self.selected -= 1;
        }
    }

    /// Handles one key on a list of `count` rows.
    pub fn navigate(&mut self, key: KeyEvent, count: usize)
        ensures
            *final(self) == old(self).navigated(key, count as nat),
    {
        if count == 0 {
            return ;
        }
        match key.code {
            KeyCode::Down | KeyCode::Char('j') => {
                self.select_next(count);
            },
            KeyCode::Up | KeyCode::Char('k') => {
                self.select_prev(count);
            },
            KeyCode::PageDown => {
                if self.selected <= count - 1 && count - 1 - self.selected >= PAGE_SIZE {
                    self.selected = self.selected + PAGE_SIZE;
                } else {
                    self.selected = count - 1;
                }
            },
            KeyCode::PageUp => {
                if self.selected >= PAGE_SIZE {
                    self.selected = self.selected - PAGE_SIZE;
                } else {
                    self.selected = 0;
                }
            },
            _ => {},
        }
        self.scroll();
    }
}

/// One row down from `rang % n` is where one row down from `rang` is.
pub proof fn lemme_rang_suivant(rang: int, n: int)
    requires
        0 <= rang,
        0 < n,
    ensures
        ((rang % n) + 1) % n == (rang + 1) % n,
{
    vstd::arithmetic::div_mod::lemma_add_mod_noop(rang, 1, n);
    vstd::arithmetic::div_mod::lemma_mod_twice(rang, n);
    vstd::arithmetic::div_mod::lemma_add_mod_noop(rang % n, 1, n);
}

/// What a message screen shows.
#[derive(Debug, PartialEq, Eq)]
pub struct MessageState {
    pub title: String,
    pub message: String,
    pub is_error: bool,
}

/// The mathematical value of a [`MessageState`].
pub ghost struct MessageStateView {
    pub title: Seq<char>,
    pub message: Seq<char>,
    pub is_error: bool,
}

impl View for MessageState {
    type V = MessageStateView;

    open spec fn view(&self) -> MessageStateView {
        MessageStateView { title: self.title@, message: self.message@, is_error: self.is_error }
    }
}

/// One screen of the application, with the state that is its own. A screen
/// holds nothing of the store.
#[derive(Debug, PartialEq, Eq)]
pub enum Screen {
    MainMenu(ListState),
    AddBook(FormState),
    ListBooks(ListState),
    BorrowBook(FormState),
    ReturnBook(FormState),
    AddAuthor(FormState),
    ListAuthors(ListState),
    Message(MessageState),
}

/// The mathematical value of a [`Screen`].
pub ghost enum ScreenView {
    MainMenu(ListState),
    AddBook(FormStateView),
    ListBooks(ListState),
    BorrowBook(FormStateView),
    ReturnBook(FormStateView),
    AddAuthor(FormStateView),
    ListAuthors(ListState),
    Message(MessageStateView),
}

impl View for Screen {
    type V = ScreenView;

    open spec fn view(&self) -> ScreenView {
        match *self {
            Screen::MainMenu(state) => ScreenView::MainMenu(state),
            Screen::AddBook(state) => ScreenView::AddBook(state@),
            Screen::ListBooks(state) => ScreenView::ListBooks(state),
            Screen::BorrowBook(state) => ScreenView::BorrowBook(state@),
            Screen::ReturnBook(state) => ScreenView::ReturnBook(state@),
            Screen::AddAuthor(state) => ScreenView::AddAuthor(state@),
            Screen::ListAuthors(state) => ScreenView::ListAuthors(state),
            Screen::Message(state) => ScreenView::Message(state@),
        }
    }
}

/// The views of a sequence of screens, in order.
pub open spec fn vues_ecrans(ecrans: Seq<Screen>) -> Seq<ScreenView> {
    ecrans.map_values(|e: Screen| e@)
}

impl ScreenView {
    /// The screen that the application starts on.
    pub open spec fn main_menu() -> ScreenView {
        ScreenView::MainMenu(ListState { selected: 0, scroll_offset: 0 })
    }

    /// The message screen with the title `title` and the text `message`.
    pub open spec fn message(title: Seq<char>, message: Seq<char>, is_error: bool) -> ScreenView {
        ScreenView::Message(MessageStateView { title, message, is_error })
    }
}

impl Screen {
    /// The main menu, with its first item selected.
    pub fn main_menu() -> (screen: Self)
        ensures
            screen@ == ScreenView::main_menu(),
    {
        Screen::MainMenu(ListState::default())
    }

    /// The form that adds a book: id, title, author id and year, all empty.
    pub fn add_book() -> (screen: Self)
        ensures
            screen@ == ScreenView::AddBook(FormStateView::vide(4)),
    {
        Screen::AddBook(FormState::vide(4))
    }

    /// The list of the books, with its first row selected.
    pub fn list_books() -> (screen: Self)
        ensures
            screen@ == ScreenView::ListBooks(ListState { selected: 0, scroll_offset: 0 }),
    {
        Screen::ListBooks(ListState::default())
    }

    /// The form that borrows a book: its id, empty.
    pub fn borrow_book() -> (screen: Self)
        ensures
            screen@ == ScreenView::BorrowBook(FormStateView::vide(1)),
    {
        Screen::BorrowBook(FormState::vide(1))
    }

    /// The form that returns a book: its id, empty.
    pub fn return_book() -> (screen: Self)
        ensures
            screen@ == ScreenView::ReturnBook(FormStateView::vide(1)),
    {
        Screen::ReturnBook(FormState::vide(1))
    }

    /// The form that adds an author: id, first name and last name, all empty.
    pub fn add_author() -> (screen: Self)
        ensures
            screen@ == ScreenView::AddAuthor(FormStateView::vide(3)),
    {
        Screen::AddAuthor(FormState::vide(3))
    }

    /// The list of the authors, with its first row selected.
    pub fn list_authors() -> (screen: Self)
        ensures
            screen@ == ScreenView::ListAuthors(ListState { selected: 0, scroll_offset: 0 }),
    {
        Screen::ListAuthors(ListState::default())
    }

    /// A message screen.
    pub fn message(title: String, message: String, is_error: bool) -> (screen: Self)
        ensures
            screen == Screen::Message(MessageState { title, message, is_error }),
            screen@ == ScreenView::message(title@, message@, is_error),
    {
        Screen::Message(MessageState { title, message, is_error })
    }
}

} // verus!
