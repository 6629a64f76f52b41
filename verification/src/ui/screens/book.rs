use crate::app::state::{textes, FormState, ListState};
use crate::services::bibliotheque::Bibliotheque;
use crate::ui::event::{KeyCode, KeyEvent};
use crate::ui::widgets::form::{Form, FormView};
use vstd::prelude::*;

verus! {

/// What a book screen asks of the application.
#[derive(Debug, PartialEq, Eq)]
pub enum BookAction {
    /// Add the book written in the four fields: id, title, author id, year.
    SubmitAdd(Vec<String>),
    /// Borrow the book whose id is written in the field.
    SubmitBorrow(String),
    /// Return the book whose id is written in the field.
    SubmitReturn(String),
}

/// The mathematical value of a [`BookAction`].
pub ghost enum BookActionView {
    SubmitAdd(Seq<Seq<char>>),
    SubmitBorrow(Seq<char>),
    SubmitReturn(Seq<char>),
}

impl View for BookAction {
    type V = BookActionView;

    open spec fn view(&self) -> BookActionView {
        match *self {
            BookAction::SubmitAdd(values) => BookActionView::SubmitAdd(textes(values@)),
            BookAction::SubmitBorrow(id) => BookActionView::SubmitBorrow(id@),
            BookAction::SubmitReturn(id) => BookActionView::SubmitReturn(id@),
        }
    }
}

/// The value of what a book screen returns for a key.
pub open spec fn book_action(action: Option<BookAction>) -> Option<BookActionView> {
    match action {
        Some(a) => Some(a@),
        None => None,
    }
}

/// The labels of the form that adds a book.
pub open spec fn add_book_labels() -> Seq<Seq<char>> {
    seq!["ID"@, "Titre"@, "Auteur ID"@, "Année"@]
}

/// The label of the form that borrows a book.
pub open spec fn borrow_book_labels() -> Seq<Seq<char>> {
    seq!["ID du livre à emprunter"@]
}

/// The label of the form that returns a book.
pub open spec fn return_book_labels() -> Seq<Seq<char>> {
    seq!["ID du livre à retourner"@]
}

/// The form that adds a book after the key `key`, and what the key asks.
/// The enter key without shift submits the four texts, provided that the
/// form has its four fields and none is blank; the form then stays as it is.
/// Any other key, and an enter key that does not submit, goes to the form.
pub open spec fn add_book_key(form: FormView, key: KeyEvent) -> (FormView, Option<BookActionView>) {
    if key.code == KeyCode::Enter && !key.modifiers.shift && form.complete(4) {
        (form, Some(BookActionView::SubmitAdd(form.values())))
    } else {
        (form.handle_key(key).0, None)
    }
}

/// The form that borrows a book after the key `key`, and what the key asks.
/// The enter key submits the text of the field, provided that the form has
/// its field and that it is not blank; the form then stays as it is. Any
/// other key, and an enter key that does not submit, goes to the form.
pub open spec fn borrow_book_key(form: FormView, key: KeyEvent) -> (
    FormView,
    Option<BookActionView>,
) {
    if key.code == KeyCode::Enter && form.complete(1) {
        (form, Some(BookActionView::SubmitBorrow(form.fields[0].value)))
    } else {
        (form.handle_key(key).0, None)
    }
}

/// The form that returns a book after the key `key`, and what the key asks:
/// as for the form that borrows one.
pub open spec fn return_book_key(form: FormView, key: KeyEvent) -> (
    FormView,
    Option<BookActionView>,
) {
    if key.code == KeyCode::Enter && form.complete(1) {
        (form, Some(BookActionView::SubmitReturn(form.fields[0].value)))
    } else {
        (form.handle_key(key).0, None)
    }
}

/// The screen that adds a book.
pub struct AddBookScreen {
    pub form: Form,
}

impl AddBookScreen {
    /// The screen on the texts and the focus of `state`.
    pub fn new(state: &FormState) -> (screen: Self)
        ensures
            screen.form@ == FormView::from_state(add_book_labels(), state@),
            screen.form.bien_forme(),
    {
        let mut labels: Vec<String> = Vec::new();
        labels.push("ID".to_owned());
        labels.push("Titre".to_owned());
        labels.push("Auteur ID".to_owned());
        labels.push("Année".to_owned());
        assert(textes(labels@) =~= add_book_labels());
        AddBookScreen { form: Form::from_state(labels, state) }
    }

    /// Handles one key, and says what it asks of the application.
    pub fn handle_key_event(&mut self, key: KeyEvent) -> (action: Option<BookAction>)
        requires
            old(self).form.bien_forme(),
        ensures
            (final(self).form@, book_action(action)) == add_book_key(old(self).form@, key),
            final(self).form.bien_forme(),
    {
        if key.code == KeyCode::Enter && !key.modifiers.shift && self.form.is_complete(4) {
            return Some(BookAction::SubmitAdd(self.form.values()));
        }
        self.form.handle_key_event(key);
        None
    }

    /// Writes the texts and the focus of the screen to `state`.
    pub fn save_state(&self, state: &mut FormState)
        ensures
            final(state)@ == self.form@.state(),
    {
        self.form.save_state(state);
    }
}

/// The screen that lists the books.
pub struct ListBooksScreen<'a> {
    pub biblio: &'a Bibliotheque,
    pub state: &'a mut ListState,
}

impl<'a> ListBooksScreen<'a> {
    /// The screen on the books of `biblio` and the cursor `state`: what the
    /// screen does to its cursor is done to `state`.
    pub fn new(biblio: &'a Bibliotheque, state: &'a mut ListState) -> (screen: Self)
        ensures
            screen.biblio == biblio,
            *screen.state == *old(state),
            *final(screen.state) == *final(state),
    {
        ListBooksScreen { biblio, state }
    }

    /// Handles one key: moves the cursor over the books, one row for each.
    pub fn handle_key_event(&mut self, key: KeyEvent)
        ensures
            *final(self).state == old(self).state.navigated(key, old(self).biblio@.livres.len()),
            *final(final(self).state) == *final(old(self).state),
            final(self).biblio == old(self).biblio,
    {
        let count: usize = self.biblio.lister_livres().len();
        self.state.navigate(key, count);
    }
}

/// The screen that borrows a book.
pub struct BorrowBookScreen {
    pub form: Form,
}

impl BorrowBookScreen {
    /// The screen on the text and the focus of `state`.
    pub fn new(state: &FormState) -> (screen: Self)
        ensures
            screen.form@ == FormView::from_state(borrow_book_labels(), state@),
            screen.form.bien_forme(),
    {
        let mut labels: Vec<String> = Vec::new();
        labels.push("ID du livre à emprunter".to_owned());
        assert(textes(labels@) =~= borrow_book_labels());
        BorrowBookScreen { form: Form::from_state(labels, state) }
    }

    /// Handles one key, and says what it asks of the application.
    pub fn handle_key_event(&mut self, key: KeyEvent) -> (action: Option<BookAction>)
        requires
            old(self).form.bien_forme(),
        ensures
            (final(self).form@, book_action(action)) == borrow_book_key(old(self).form@, key),
            final(self).form.bien_forme(),
    {
        if key.code == KeyCode::Enter && self.form.is_complete(1) {
            return Some(BookAction::SubmitBorrow(self.form.fields[0].value().to_owned()));
        }
        self.form.handle_key_event(key);
        None
    }

    /// Writes the text and the focus of the screen to `state`.
    pub fn save_state(&self, state: &mut FormState)
        ensures
            final(state)@ == self.form@.state(),
    {
        self.form.save_state(state);
    }
}

/// The screen that returns a book.
pub struct ReturnBookScreen {
    pub form: Form,
}

impl ReturnBookScreen {
    /// The screen on the text and the focus of `state`.
    pub fn new(state: &FormState) -> (screen: Self)
        ensures
            screen.form@ == FormView::from_state(return_book_labels(), state@),
            screen.form.bien_forme(),
    {
        let mut labels: Vec<String> = Vec::new();
        labels.push("ID du livre à retourner".to_owned());
        assert(textes(labels@) =~= return_book_labels());
        ReturnBookScreen { form: Form::from_state(labels, state) }
    }

    /// Handles one key, and says what it asks of the application.
    pub fn handle_key_event(&mut self, key: KeyEvent) -> (action: Option<BookAction>)
        requires
            old(self).form.bien_forme(),
        ensures
            (final(self).form@, book_action(action)) == return_book_key(old(self).form@, key),
            final(self).form.bien_forme(),
    {
        if key.code == KeyCode::Enter && self.form.is_complete(1) {
            return Some(BookAction::SubmitReturn(self.form.fields[0].value().to_owned()));
        }
        self.form.handle_key_event(key);
        None
    }

    /// Writes the text and the focus of the screen to `state`.
    pub fn save_state(&self, state: &mut FormState)
        ensures
            final(state)@ == self.form@.state(),
    {
        self.form.save_state(state);
    }
}

} // verus!
