//! The coordinator: it owns the store and the stack of screens, takes the
//! key presses one at a time, and turns what a screen asks into calls on the
//! store and into steps of navigation.

pub mod lois;
pub mod state;
pub mod submit;

use crate::models::auteur::{vues_auteurs, Auteur, AuteurView};
use crate::services::bibliotheque::{issue, Bibliotheque, BibliothequeView};
use crate::texte::joindre;
use crate::ui::event::{KeyCode, KeyEvent};
use crate::ui::screens::author::{
    add_author_key, add_author_labels, author_row_count, AddAuthorScreen, AuthorAction,
    AuthorActionView, ListAuthorsScreen,
};
use crate::ui::screens::book::{
    add_book_key, add_book_labels, borrow_book_key, borrow_book_labels, return_book_key,
    return_book_labels, AddBookScreen, BookAction, BookActionView, BorrowBookScreen,
    ListBooksScreen, ReturnBookScreen,
};
use crate::ui::screens::main_menu::{menu_key, MainMenu, MenuAction};
use crate::ui::widgets::form::FormView;
use state::{textes, vues_ecrans, FormStateView, ListState, Screen, ScreenView};
use submit::{
    submit_add_author, submit_add_book, submit_borrow, submit_return, Outcome, OutcomeView,
};
use vstd::prelude::*;

verus! {

/// The application: the store, the navigation history, and the flag that
/// tells the event loop to stop. The top of `screen_stack` is the screen in
/// use.
pub struct App {
    pub biblio: Bibliotheque,
    pub screen_stack: Vec<Screen>,
    pub should_quit: bool,
}

/// The mathematical value of an [`App`], with the application's operations
/// as functions on it.
pub ghost struct AppView {
    pub biblio: BibliothequeView,
    pub screen_stack: Seq<ScreenView>,
    pub should_quit: bool,
}

impl View for App {
    type V = AppView;

    open spec fn view(&self) -> AppView {
        AppView {
            biblio: self.biblio@,
            screen_stack: vues_ecrans(self.screen_stack@),
            should_quit: self.should_quit,
        }
    }
}

/// What a key press leaves for the event loop to do on disk. The loop does
/// it and hands the outcome to `handle_save` or `handle_load`.
#[derive(Clone, Copy, Debug, PartialEq, Eq, Structural)]
pub enum IoRequest {
    /// Nothing.
    NoRequest,
    /// Write down what `Bibliotheque::sauvegarder` gives.
    Save,
    /// Read the saved authors back.
    Load,
}

/// The outcome of reading the saved authors, as the model sees it.
pub open spec fn lecture(res: Result<Vec<Auteur>, String>) -> Result<Seq<AuteurView>, Seq<char>> {
    match res {
        Ok(auteurs) => Ok(vues_auteurs(auteurs@)),
        Err(message) => Err(message@),
    }
}

impl AppView {
    /// The stack holds a screen: there is a screen in use.
    pub open spec fn bien_forme(self) -> bool {
        self.screen_stack.len() >= 1
    }

    /// The screen in use.
    pub open spec fn current_screen(self) -> ScreenView {
        self.screen_stack.last()
    }

    /// The application after `screen` was put on top of the stack.
    pub open spec fn push_screen(self, screen: ScreenView) -> AppView {
        AppView { screen_stack: self.screen_stack.push(screen), ..self }
    }

    /// The application after a step back: the top screen is gone, unless it
    /// was the only one.
    pub open spec fn pop_screen(self) -> AppView {
        if self.screen_stack.len() > 1 {
            AppView { screen_stack: self.screen_stack.drop_last(), ..self }
        } else {
            self
        }
    }

    /// The application after `screen` took the place of the top screen.
    pub open spec fn replace_screen(self, screen: ScreenView) -> AppView {
        if self.screen_stack.len() > 0 {
            AppView { screen_stack: self.screen_stack.drop_last().push(screen), ..self }
        } else {
            AppView { screen_stack: self.screen_stack.push(screen), ..self }
        }
    }

    /// The application with a message screen on top of the stack.
    pub open spec fn notify(self, title: Seq<char>, message: Seq<char>, is_error: bool) -> AppView {
        self.push_screen(ScreenView::message(title, message, is_error))
    }

    /// The application with the quit flag set.
    pub open spec fn quit(self) -> AppView {
        AppView { should_quit: true, ..self }
    }

    /// The application with the store `biblio`.
    pub open spec fn with_biblio(self, biblio: BibliothequeView) -> AppView {
        AppView { biblio, ..self }
    }

    /// The application after a submitted form came to `outcome`: the form
    /// gives way where it has done its work, and the message is shown.
    pub open spec fn conclude(self, outcome: OutcomeView) -> AppView {
        let app = if outcome.close_form {
            self.pop_screen()
        } else {
            self
        };
        app.push_screen(ScreenView::Message(outcome.message))
    }

    /// Handling the four texts of the form that adds a book: the store
    /// takes them, and the application shows what they came to.
    pub open spec fn handle_add_book(self, values: Seq<Seq<char>>) -> AppView {
        let (biblio, outcome) = self.biblio.submit_add_book(values);
        self.with_biblio(biblio).conclude(outcome)
    }

    /// Handling the text of the form that borrows a book.
    pub open spec fn handle_borrow_book(self, id: Seq<char>) -> AppView {
        let (biblio, outcome) = self.biblio.submit_borrow(id);
        self.with_biblio(biblio).conclude(outcome)
    }

    /// Handling the text of the form that returns a book.
    pub open spec fn handle_return_book(self, id: Seq<char>) -> AppView {
        let (biblio, outcome) = self.biblio.submit_return(id);
        self.with_biblio(biblio).conclude(outcome)
    }

    /// Handling the three texts of the form that adds an author.
    pub open spec fn handle_add_author(self, values: Seq<Seq<char>>) -> AppView {
        let (biblio, outcome) = self.biblio.submit_add_author(values);
        self.with_biblio(biblio).conclude(outcome)
    }

    /// Taking the outcome of a save: a message says how it went.
    pub open spec fn handle_save(self, res: Result<(), Seq<char>>) -> AppView {
        match res {
            Ok(()) => self.notify(
                "Succès"@,
                "Bibliothèque sauvegardée dans bibliotheque.json"@,
                false,
            ),
            Err(e) => self.notify("Erreur"@, "Erreur lors de la sauvegarde: "@ + e, true),
        }
    }

    /// Taking the outcome of a load: the store that the saved authors give
    /// takes the place of the store, or the store stays as it is where the
    /// load failed; a message says how it went.
    pub open spec fn handle_load(self, res: Result<Seq<AuteurView>, Seq<char>>) -> AppView {
        match res {
            Ok(auteurs) => self.with_biblio(BibliothequeView::charger(auteurs)).notify(
                "Succès"@,
                "Bibliothèque chargée depuis bibliotheque.json"@,
                false,
            ),
            Err(e) => self.notify("Erreur"@, "Erreur lors du chargement: "@ + e, true),
        }
    }

    /// What an item of the main menu does: it opens a screen, asks the event
    /// loop for a save or a load, or sets the quit flag.
    pub open spec fn handle_menu(self, action: MenuAction) -> (AppView, IoRequest) {
        match action {
            MenuAction::AddAuthor => (
                self.push_screen(ScreenView::AddAuthor(FormStateView::vide(3))),
                IoRequest::NoRequest,
            ),
            MenuAction::AddBook => (
                self.push_screen(ScreenView::AddBook(FormStateView::vide(4))),
                IoRequest::NoRequest,
            ),
            MenuAction::ListBooks => (
                self.push_screen(ScreenView::ListBooks(ListState { selected: 0, scroll_offset: 0 })),
                IoRequest::NoRequest,
            ),
            MenuAction::BorrowBook => (
                self.push_screen(ScreenView::BorrowBook(FormStateView::vide(1))),
                IoRequest::NoRequest,
            ),
            MenuAction::ReturnBook => (
                self.push_screen(ScreenView::ReturnBook(FormStateView::vide(1))),
                IoRequest::NoRequest,
            ),
            MenuAction::ListAuthors => (
                self.push_screen(
                    ScreenView::ListAuthors(ListState { selected: 0, scroll_offset: 0 }),
                ),
                IoRequest::NoRequest,
            ),
            MenuAction::Save => (self, IoRequest::Save),
            MenuAction::Load => (self, IoRequest::Load),
            MenuAction::Quit => (self.quit(), IoRequest::NoRequest),
            MenuAction::NoAction => (self, IoRequest::NoRequest),
        }
    }

    /// The application with `screen` where the screen in use was.
    pub open spec fn with_current(self, screen: ScreenView) -> AppView {
        AppView {
            screen_stack: self.screen_stack.update(self.screen_stack.len() - 1, screen),
            ..self
        }
    }

    /// What the screen in use does with the key `key`: it moves its cursor,
    /// edits its form, or asks something of the application, which is done.
    pub open spec fn dispatch(self, key: KeyEvent) -> (AppView, IoRequest) {
        match self.current_screen() {
            ScreenView::MainMenu(state) => {
                let (moved, action) = menu_key(state, key);
                self.with_current(ScreenView::MainMenu(moved)).handle_menu(action)
            },
            ScreenView::AddBook(state) => {
                let (form, action) = add_book_key(
                    FormView::from_state(add_book_labels(), state),
                    key,
                );
                let app = self.with_current(ScreenView::AddBook(form.state()));
                match action {
                    Some(BookActionView::SubmitAdd(values)) => (
                        app.handle_add_book(values),
                        IoRequest::NoRequest,
                    ),
                    _ => (app, IoRequest::NoRequest),
                }
            },
            ScreenView::ListBooks(state) => (
                self.with_current(
                    ScreenView::ListBooks(state.navigated(key, self.biblio.livres.len())),
                ),
                IoRequest::NoRequest,
            ),
            ScreenView::BorrowBook(state) => {
                let (form, action) = borrow_book_key(
                    FormView::from_state(borrow_book_labels(), state),
                    key,
                );
                let app = self.with_current(ScreenView::BorrowBook(form.state()));
                match action {
                    Some(BookActionView::SubmitBorrow(id)) => (
                        app.handle_borrow_book(id),
                        IoRequest::NoRequest,
                    ),
                    _ => (app, IoRequest::NoRequest),
                }
            },
            ScreenView::ReturnBook(state) => {
                let (form, action) = return_book_key(
                    FormView::from_state(return_book_labels(), state),
                    key,
                );
                let app = self.with_current(ScreenView::ReturnBook(form.state()));
                match action {
                    Some(BookActionView::SubmitReturn(id)) => (
                        app.handle_return_book(id),
                        IoRequest::NoRequest,
                    ),
                    _ => (app, IoRequest::NoRequest),
                }
            },
            ScreenView::AddAuthor(state) => {
                let (form, action) = add_author_key(
                    FormView::from_state(add_author_labels(), state),
                    key,
                );
                let app = self.with_current(ScreenView::AddAuthor(form.state()));
                match action {
                    Some(AuthorActionView::SubmitAdd(values)) => (
                        app.handle_add_author(values),
                        IoRequest::NoRequest,
                    ),
                    None => (app, IoRequest::NoRequest),
                }
            },
            ScreenView::ListAuthors(state) => (
                self.with_current(
                    ScreenView::ListAuthors(
                        state.navigated(key, author_row_count(self.biblio.auteurs)),
                    ),
                ),
                IoRequest::NoRequest,
            ),
            ScreenView::Message(_) => (self, IoRequest::NoRequest),
        }
    }

    /// The application after the key `key`, and what the key leaves for the
    /// event loop to do. The quit chord sets the quit flag. The escape key
    /// closes a message, steps back from any other screen, and sets the quit
    /// flag on the last screen. The enter key closes a message. Any other
    /// key goes to the screen in use.
    pub open spec fn handle_input(self, key: KeyEvent) -> (AppView, IoRequest) {
        if key.is_quit_chord() {
            (self.quit(), IoRequest::NoRequest)
        } else if key.code == KeyCode::Esc {
            if self.current_screen() is Message || self.screen_stack.len() > 1 {
                (self.pop_screen(), IoRequest::NoRequest)
            } else {
                (self.quit(), IoRequest::NoRequest)
            }
        } else if key.code == KeyCode::Enter && self.current_screen() is Message {
            (self.pop_screen(), IoRequest::NoRequest)
        } else {
            self.dispatch(key)
        }
    }
}

/// Whatever screen takes the place of the top screen of `ecrans`, its view
/// takes the place of the top view.
proof fn lemme_ecran_en_place(ecrans: Seq<Screen>)
    requires
        ecrans.len() >= 1,
    ensures
        forall|ecran: Screen|
            vues_ecrans(#[trigger] ecrans.update(ecrans.len() - 1, ecran)) == vues_ecrans(
                ecrans,
            ).update(ecrans.len() - 1, ecran@),
{
    assert forall|ecran: Screen|
        vues_ecrans(#[trigger] ecrans.update(ecrans.len() - 1, ecran)) == vues_ecrans(
            ecrans,
        ).update(ecrans.len() - 1, ecran@) by {
        assert(vues_ecrans(ecrans.update(ecrans.len() - 1, ecran)) =~= vues_ecrans(ecrans).update(
            ecrans.len() - 1,
            ecran@,
        ));
    }
}

impl App {
    /// The application holds a screen. Every operation keeps it so.
    pub open spec fn bien_forme(&self) -> bool {
        self@.bien_forme()
    }

    /// The application at its start: the given store, the main menu alone on
    /// the stack.
    pub fn new(biblio: Bibliotheque) -> (app: Self)
        ensures
            app.bien_forme(),
            app@ == (AppView {
                biblio: biblio@,
                screen_stack: seq![ScreenView::main_menu()],
                should_quit: false,
            }),
    {
        let mut screen_stack: Vec<Screen> = Vec::new();
        screen_stack.push(Screen::main_menu());
        assert(vues_ecrans(screen_stack@) =~= seq![ScreenView::main_menu()]);
        App { biblio, screen_stack, should_quit: false }
    }

    /// The screen in use.
    pub fn current_screen(&self) -> (screen: &Screen)
        requires
            self.bien_forme(),
        ensures
            screen@ == self@.current_screen(),
            *screen == self.screen_stack@.last(),
    {
        &self.screen_stack[self.screen_stack.len() - 1]
    }

    /// The screen in use, to be changed in place: what the caller leaves in
    /// it is the top of the stack afterwards, and nothing else changes.
    pub fn current_screen_mut(&mut self) -> (screen: &mut Screen)
        requires
            old(self).bien_forme(),
        ensures
            *screen == old(self).screen_stack@.last(),
            final(self).screen_stack@ == old(self).screen_stack@.update(
                old(self).screen_stack@.len() - 1,
                *final(screen),
            ),
            final(self)@ == old(self)@.with_current((*final(screen))@),
            final(self).biblio == old(self).biblio,
            final(self).should_quit == old(self).should_quit,
            final(self).bien_forme(),
    {
        let n: usize = self.screen_stack.len();
        let ghost avant = self.screen_stack@;
        proof {
            lemme_ecran_en_place(avant);
        }
        &mut self.screen_stack[n - 1]
    }

    /// Puts `screen` on top of the stack.
    pub fn push_screen(&mut self, screen: Screen)
        ensures
            final(self)@ == old(self)@.push_screen(screen@),
            final(self).bien_forme(),
    {
        let ghost avant = self.screen_stack@;
        self.screen_stack.push(screen);
        assert(vues_ecrans(self.screen_stack@) =~= vues_ecrans(avant).push(screen@));
    }

    /// Steps back: removes the top screen, unless it is the only one.
    pub fn pop_screen(&mut self)
        ensures
            final(self)@ == old(self)@.pop_screen(),
            old(self).bien_forme() ==> final(self).bien_forme(),
    {
        if self.screen_stack.len() > 1 {
            let ghost avant = self.screen_stack@;
            self.screen_stack.pop();
            assert(vues_ecrans(self.screen_stack@) =~= vues_ecrans(avant).drop_last());
        }
    }

    /// Puts `screen` in the place of the top screen.
    pub fn replace_screen(&mut self, screen: Screen)
        ensures
            final(self)@ == old(self)@.replace_screen(screen@),
            final(self).bien_forme(),
    {
        if !self.screen_stack.is_empty() {
            let ghost avant = self.screen_stack@;
            self.screen_stack.pop();
            assert(vues_ecrans(self.screen_stack@) =~= vues_ecrans(avant).drop_last());
        }
        let ghost avant = self.screen_stack@;
        self.screen_stack.push(screen);
        assert(vues_ecrans(self.screen_stack@) =~= vues_ecrans(avant).push(screen@));
    }

    /// Puts a message screen on top of the stack.
    fn notify(&mut self, title: &str, message: String, is_error: bool)
        ensures
            final(self)@ == old(self)@.notify(title@, message@, is_error),
            final(self).bien_forme(),
    {
        self.push_screen(Screen::message(title.to_owned(), message, is_error));
    }

    /// Does what the item `action` of the main menu asks, and tells what is
    /// left for the event loop to do.
    fn handle_menu(&mut self, action: MenuAction) -> (request: IoRequest)
        ensures
            (final(self)@, request) == old(self)@.handle_menu(action),
            final(self).screen_stack@.len() >= old(self).screen_stack@.len(),
    {
        match action {
            MenuAction::AddAuthor => self.push_screen(Screen::add_author()),
            MenuAction::AddBook => self.push_screen(Screen::add_book()),
            MenuAction::ListBooks => self.push_screen(Screen::list_books()),
            MenuAction::BorrowBook => self.push_screen(Screen::borrow_book()),
            MenuAction::ReturnBook => self.push_screen(Screen::return_book()),
            MenuAction::ListAuthors => self.push_screen(Screen::list_authors()),
            MenuAction::Save => {
                return IoRequest::Save;
            },
            MenuAction::Load => {
                return IoRequest::Load;
            },
            MenuAction::Quit => {
                self.should_quit = true;
            },
            MenuAction::NoAction => {},
        }
        IoRequest::NoRequest
    }

    /// Handles one key press, and tells what it leaves for the event loop to
    /// do on disk.
    pub fn handle_input(&mut self, key: KeyEvent) -> (request: IoRequest)
        requires
            old(self).bien_forme(),
        ensures
            (final(self)@, request) == old(self)@.handle_input(key),
            final(self).bien_forme(),
    {
        if key.code == KeyCode::Char('c') && key.modifiers.control {
            self.should_quit = true;
            return IoRequest::NoRequest;
        }
        if key.code == KeyCode::Esc {
            match self.current_screen() {
                Screen::Message(_) => {
                    self.pop_screen();
                },
                _ => {
                    if self.screen_stack.len() > 1 {
                        self.pop_screen();
                    } else {
                        self.should_quit = true;
                    }
                },
            }
            return IoRequest::NoRequest;
        }
        if key.code == KeyCode::Enter {
            if let Screen::Message(_) = self.current_screen() {
                self.pop_screen();
                return IoRequest::NoRequest;
            }
        }
        let n: usize = self.screen_stack.len();
        let ghost avant = self.screen_stack@;
        proof {
            lemme_ecran_en_place(avant);
        }
        match &mut self.screen_stack[n - 1] {
            Screen::MainMenu(state) => {
                let mut menu = MainMenu::new(state);
                let action = menu.handle_key_event(key);
                self.handle_menu(action)
            },
            Screen::AddBook(state) => {
                let mut screen = AddBookScreen::new(state);
                let action = screen.handle_key_event(key);
                screen.save_state(state);
                if let Some(BookAction::SubmitAdd(values)) = action {
                    assert(textes(values@).len() == values.len());
                    self.handle_add_book(values);
                }
                IoRequest::NoRequest
            },
            Screen::ListBooks(state) => {
                let mut screen = ListBooksScreen::new(&self.biblio, state);
                screen.handle_key_event(key);
                IoRequest::NoRequest
            },
            Screen::BorrowBook(state) => {
                let mut screen = BorrowBookScreen::new(state);
                let action = screen.handle_key_event(key);
                screen.save_state(state);
                if let Some(BookAction::SubmitBorrow(id_str)) = action {
                    self.handle_borrow_book(id_str);
                }
                IoRequest::NoRequest
            },
            Screen::ReturnBook(state) => {
                let mut screen = ReturnBookScreen::new(state);
                let action = screen.handle_key_event(key);
                screen.save_state(state);
                if let Some(BookAction::SubmitReturn(id_str)) = action {
                    self.handle_return_book(id_str);
                }
                IoRequest::NoRequest
            },
            Screen::AddAuthor(state) => {
                let mut screen = AddAuthorScreen::new(state);
                let action = screen.handle_key_event(key);
                screen.save_state(state);
                if let Some(AuthorAction::SubmitAdd(values)) = action {
                    assert(textes(values@).len() == values.len());
                    self.handle_add_author(values);
                }
                IoRequest::NoRequest
            },
            Screen::ListAuthors(state) => {
                let mut screen = ListAuthorsScreen::new(&self.biblio, state);
                screen.handle_key_event(key);
                IoRequest::NoRequest
            },
            Screen::Message(_) => {
                assert(self.screen_stack@ =~= avant);
                IoRequest::NoRequest
            },
        }
    }

    /// Shows what a submitted form came to: closes the form where it has
    /// done its work, and puts the message on top of the stack.
    fn conclude(&mut self, outcome: Outcome)
        ensures
            final(self)@ == old(self)@.conclude(outcome@),
            final(self).bien_forme(),
    {
        if outcome.close_form {
            self.pop_screen();
        }
        self.push_screen(Screen::Message(outcome.message));
    }

    /// Handles the four texts of the form that adds a book.
    pub fn handle_add_book(&mut self, values: Vec<String>)
        requires
            values.len() == 4,
        ensures
            final(self)@ == old(self)@.handle_add_book(textes(values@)),
            final(self).bien_forme(),
    {
        let outcome = submit_add_book(&mut self.biblio, &values);
        self.conclude(outcome);
    }

    /// Handles the text of the form that borrows a book.
    pub fn handle_borrow_book(&mut self, id_str: String)
        ensures
            final(self)@ == old(self)@.handle_borrow_book(id_str@),
            final(self).bien_forme(),
    {
        let outcome = submit_borrow(&mut self.biblio, id_str.as_str());
        self.conclude(outcome);
    }

    /// Handles the text of the form that returns a book.
    pub fn handle_return_book(&mut self, id_str: String)
        ensures
            final(self)@ == old(self)@.handle_return_book(id_str@),
            final(self).bien_forme(),
    {
        let outcome = submit_return(&mut self.biblio, id_str.as_str());
        self.conclude(outcome);
    }

    /// Handles the three texts of the form that adds an author.
    pub fn handle_add_author(&mut self, values: Vec<String>)
        requires
            values.len() == 3,
        ensures
            final(self)@ == old(self)@.handle_add_author(textes(values@)),
            final(self).bien_forme(),
    {
        let outcome = submit_add_author(&mut self.biblio, &values);
        self.conclude(outcome);
    }

    /// Takes the outcome of the save that `handle_input` asked for, and
    /// reports it in a message.
    pub fn handle_save(&mut self, res: Result<(), String>)
        ensures
            final(self)@ == old(self)@.handle_save(issue(res)),
            final(self).bien_forme(),
    {
        match res {
            Ok(()) => {
                self.notify(
                    "Succès",
                    "Bibliothèque sauvegardée dans bibliotheque.json".to_owned(),
                    false,
                );
            },
            Err(e) => {
                self.notify("Erreur", joindre("Erreur lors de la sauvegarde: ", e.as_str()), true);
            },
        }
    }

    /// Takes the outcome of the load that `handle_input` asked for: the
    /// authors that were read, or the error. On success the store that the
    /// authors give replaces the store; on failure the store stays as it is.
    /// A message reports either.
    pub fn handle_load(&mut self, res: Result<Vec<Auteur>, String>)
        ensures
            final(self)@ == old(self)@.handle_load(lecture(res)),
            final(self).bien_forme(),
    {
        match res {
            Ok(auteurs) => {
                self.biblio = Bibliotheque::charger(auteurs);
                self.notify(
                    "Succès",
                    "Bibliothèque chargée depuis bibliotheque.json".to_owned(),
                    false,
                );
            },
            Err(e) => {
                self.notify("Erreur", joindre("Erreur lors du chargement: ", e.as_str()), true);
            },
        }
    }
}

} // verus!
