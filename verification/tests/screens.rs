use bibliotheque::app::state::{FormState, ListState, MessageState};
use bibliotheque::models::{Auteur, Livre};
use bibliotheque::services::Bibliotheque;
use bibliotheque::ui::event::{KeyCode, KeyEvent, KeyModifiers};
use bibliotheque::ui::screens::author::AuthorRow;
use bibliotheque::ui::screens::{
    AddAuthorScreen, AddBookScreen, AuthorAction, BookAction, BorrowBookScreen, ListAuthorsScreen,
    ListBooksScreen, MainMenu, MenuAction, MessageScreen, ReturnBookScreen,
};

fn key(code: KeyCode) -> KeyEvent {
    KeyEvent::new(code, KeyModifiers::none())
}

fn shift(code: KeyCode) -> KeyEvent {
    KeyEvent::new(code, KeyModifiers { shift: true, control: false })
}

fn strings(texts: &[&str]) -> Vec<String> {
    texts.iter().map(|t| t.to_string()).collect()
}

fn form(texts: &[&str]) -> FormState {
    FormState { fields: strings(texts), focused_field: 0 }
}

fn store_with_books(n: u32) -> Bibliotheque {
    let mut b = Bibliotheque::new();
    for i in 0..n {
        b.ajouter_livre(Livre::new(i, format!("livre {}", i), 1, 2000));
    }
    b
}

fn list(selected: usize, scroll_offset: usize) -> ListState {
    ListState { selected, scroll_offset }
}

#[test]
fn list_down_on_last_of_three_wraps_to_first() {
    let b = store_with_books(3);
    let mut st = list(2, 0);
    ListBooksScreen::new(&b, &mut st).handle_key_event(key(KeyCode::Down));
    assert_eq!(st, list(0, 0));
}

#[test]
fn list_up_on_first_wraps_to_last() {
    let b = store_with_books(3);
    let mut st = list(0, 0);
    ListBooksScreen::new(&b, &mut st).handle_key_event(key(KeyCode::Up));
    assert_eq!(st, list(2, 0));
    ListBooksScreen::new(&b, &mut st).handle_key_event(key(KeyCode::Char('k')));
    assert_eq!(st, list(1, 0));
    ListBooksScreen::new(&b, &mut st).handle_key_event(key(KeyCode::Char('j')));
    assert_eq!(st, list(2, 0));
}

#[test]
fn list_without_rows_does_not_move() {
    let b = store_with_books(0);
    let mut st = list(4, 7);
    ListBooksScreen::new(&b, &mut st).handle_key_event(key(KeyCode::Down));
    assert_eq!(st, list(4, 7));
    ListBooksScreen::new(&b, &mut st).handle_key_event(key(KeyCode::PageUp));
    assert_eq!(st, list(4, 7));
}

#[test]
fn page_keys_move_by_ten_and_stop_at_the_ends() {
    let b = store_with_books(25);
    let mut st = list(3, 0);
    ListBooksScreen::new(&b, &mut st).handle_key_event(key(KeyCode::PageDown));
    assert_eq!(st, list(13, 0));
    ListBooksScreen::new(&b, &mut st).handle_key_event(key(KeyCode::PageDown));
    assert_eq!(st, list(23, 9));
    ListBooksScreen::new(&b, &mut st).handle_key_event(key(KeyCode::PageDown));
    assert_eq!(st, list(24, 10));
    ListBooksScreen::new(&b, &mut st).handle_key_event(key(KeyCode::PageUp));
    assert_eq!(st, list(14, 10));
    ListBooksScreen::new(&b, &mut st).handle_key_event(key(KeyCode::PageUp));
    assert_eq!(st, list(4, 4));
    ListBooksScreen::new(&b, &mut st).handle_key_event(key(KeyCode::PageUp));
    assert_eq!(st, list(0, 0));
}

#[test]
fn window_follows_the_selection() {
    let b = store_with_books(40);
    let mut st = list(14, 0);
    ListBooksScreen::new(&b, &mut st).handle_key_event(key(KeyCode::Down));
    assert_eq!(st, list(15, 1));
    let mut st = list(5, 5);
    ListBooksScreen::new(&b, &mut st).handle_key_event(key(KeyCode::Up));
    assert_eq!(st, list(4, 4));
    let mut st = list(39, 25);
    ListBooksScreen::new(&b, &mut st).handle_key_event(key(KeyCode::Down));
    assert_eq!(st, list(0, 0));
    let mut st = list(0, 0);
    ListBooksScreen::new(&b, &mut st).handle_key_event(key(KeyCode::Up));
    assert_eq!(st, list(39, 25));
}

#[test]
fn any_key_lets_the_window_follow() {
    let b = store_with_books(40);
    let mut st = list(30, 0);
    ListBooksScreen::new(&b, &mut st).handle_key_event(key(KeyCode::Char('x')));
    assert_eq!(st, list(30, 16));
}

#[test]
fn selection_beyond_the_rows_comes_back() {
    let b = store_with_books(3);
    let mut st = list(7, 0);
    ListBooksScreen::new(&b, &mut st).handle_key_event(key(KeyCode::Down));
    assert_eq!(st, list(2, 0));
    let mut st = list(usize::MAX, 0);
    ListBooksScreen::new(&b, &mut st).handle_key_event(key(KeyCode::Down));
    assert_eq!(st.selected, (usize::MAX % 3 + 1) % 3);
    let mut st = list(usize::MAX, 0);
    ListBooksScreen::new(&b, &mut st).handle_key_event(key(KeyCode::PageDown));
    assert_eq!(st.selected, 2);
}

#[test]
fn author_list_counts_headings_books_and_blank_rows() {
    let mut a1 = Auteur::new(1, "a".to_string(), "A".to_string());
    a1.add_livre(10);
    a1.add_livre(11);
    let a2 = Auteur::new(2, "b".to_string(), "B".to_string());
    assert_eq!(ListAuthorsScreen::total_items(&Vec::new()), 0);
    assert_eq!(ListAuthorsScreen::total_items(&vec![a2.clone()]), 2);
    assert_eq!(ListAuthorsScreen::total_items(&vec![a1.clone(), a2.clone()]), 6);

    let mut b = Bibliotheque::new();
    b.ajouter_auteur(a1);
    b.ajouter_auteur(a2);
    let mut st = list(5, 0);
    ListAuthorsScreen::new(&b, &mut st).handle_key_event(key(KeyCode::Down));
    assert_eq!(st, list(0, 0));
    ListAuthorsScreen::new(&b, &mut st).handle_key_event(key(KeyCode::Up));
    assert_eq!(st, list(5, 0));
    ListAuthorsScreen::new(&b, &mut st).handle_key_event(key(KeyCode::PageUp));
    assert_eq!(st, list(0, 0));
    ListAuthorsScreen::new(&b, &mut st).handle_key_event(key(KeyCode::PageDown));
    assert_eq!(st, list(5, 0));
}

#[test]
fn author_list_without_authors_does_not_move() {
    let b = Bibliotheque::new();
    let mut st = list(1, 1);
    ListAuthorsScreen::new(&b, &mut st).handle_key_event(key(KeyCode::Down));
    assert_eq!(st, list(1, 1));
}

#[test]
fn menu_items_in_order() {
    let expected = [
        MenuAction::AddAuthor,
        MenuAction::AddBook,
        MenuAction::ListBooks,
        MenuAction::BorrowBook,
        MenuAction::ReturnBook,
        MenuAction::ListAuthors,
        MenuAction::Save,
        MenuAction::Load,
        MenuAction::Quit,
        MenuAction::NoAction,
    ];
    for (i, action) in expected.iter().enumerate() {
        assert_eq!(MainMenu::item(i), *action);
        let mut st = list(i, 0);
        assert_eq!(MainMenu::new(&mut st).handle_key_event(key(KeyCode::Enter)), *action);
        assert_eq!(st, list(i, 0));
    }
}

#[test]
fn menu_selection_wraps() {
    let mut st = list(8, 0);
    assert_eq!(MainMenu::new(&mut st).handle_key_event(key(KeyCode::Down)), MenuAction::NoAction);
    assert_eq!(st, list(0, 0));
    assert_eq!(MainMenu::new(&mut st).handle_key_event(key(KeyCode::Char('k'))), MenuAction::NoAction);
    assert_eq!(st, list(8, 0));
    assert_eq!(MainMenu::new(&mut st).handle_key_event(key(KeyCode::Up)), MenuAction::NoAction);
    assert_eq!(st, list(7, 0));
    assert_eq!(MainMenu::new(&mut st).handle_key_event(key(KeyCode::Char('j'))), MenuAction::NoAction);
    assert_eq!(st, list(8, 0));
    assert_eq!(MainMenu::new(&mut st).handle_key_event(key(KeyCode::PageDown)), MenuAction::NoAction);
    assert_eq!(st, list(8, 0));
}

#[test]
fn add_book_form_submits_only_when_no_field_is_empty() {
    let state = form(&["", "Title", "9", "2020"]);
    let mut screen = AddBookScreen::new(&state);
    assert_eq!(screen.handle_key_event(key(KeyCode::Enter)), None);

    let state = form(&["1", "Title", "9", "2020"]);
    let mut screen = AddBookScreen::new(&state);
    assert_eq!(
        screen.handle_key_event(key(KeyCode::Enter)),
        Some(BookAction::SubmitAdd(strings(&["1", "Title", "9", "2020"])))
    );
}

#[test]
fn add_book_form_filled_by_typing_submits() {
    let mut state = form(&["", "Title", "9", "2020"]);
    let mut screen = AddBookScreen::new(&state);
    assert_eq!(screen.handle_key_event(key(KeyCode::Enter)), None);
    assert_eq!(screen.handle_key_event(key(KeyCode::Char('1'))), None);
    screen.save_state(&mut state);
    assert_eq!(state, form(&["1", "Title", "9", "2020"]));
    let mut screen = AddBookScreen::new(&state);
    assert_eq!(
        screen.handle_key_event(key(KeyCode::Enter)),
        Some(BookAction::SubmitAdd(strings(&["1", "Title", "9", "2020"])))
    );
}

#[test]
fn add_book_form_with_a_blank_or_missing_field_does_not_submit() {
    let mut screen = AddBookScreen::new(&form(&["1", "   ", "9", "2020"]));
    assert_eq!(screen.handle_key_event(key(KeyCode::Enter)), None);
    let mut screen = AddBookScreen::new(&form(&["1", "T", "9"]));
    assert_eq!(screen.handle_key_event(key(KeyCode::Enter)), None);
    let mut screen = AddBookScreen::new(&form(&[]));
    assert_eq!(screen.handle_key_event(key(KeyCode::Enter)), None);
}

#[test]
fn add_book_form_does_not_submit_on_shift_enter() {
    let mut screen = AddBookScreen::new(&form(&["1", "T", "9", "2020"]));
    assert_eq!(screen.handle_key_event(shift(KeyCode::Enter)), None);
    assert_eq!(screen.form.values(), strings(&["1", "T", "9", "2020"]));
}

#[test]
fn add_book_form_moves_its_focus() {
    let mut state = form(&["", "", "", ""]);
    let mut screen = AddBookScreen::new(&state);
    assert_eq!(screen.form.fields[3].label, "Année");
    assert_eq!(screen.handle_key_event(key(KeyCode::Tab)), None);
    screen.save_state(&mut state);
    assert_eq!(state.focused_field, 1);
    let mut screen = AddBookScreen::new(&state);
    assert_eq!(screen.handle_key_event(key(KeyCode::Char('T'))), None);
    screen.save_state(&mut state);
    assert_eq!(state, FormState { fields: strings(&["", "T", "", ""]), focused_field: 1 });
}

#[test]
fn borrow_form_submits_its_text() {
    let mut screen = BorrowBookScreen::new(&form(&["12"]));
    assert_eq!(screen.form.fields[0].label, "ID du livre à emprunter");
    assert_eq!(
        screen.handle_key_event(key(KeyCode::Enter)),
        Some(BookAction::SubmitBorrow("12".to_string()))
    );
    assert_eq!(
        screen.handle_key_event(shift(KeyCode::Enter)),
        Some(BookAction::SubmitBorrow("12".to_string()))
    );
    let mut screen = BorrowBookScreen::new(&form(&[" "]));
    assert_eq!(screen.handle_key_event(key(KeyCode::Enter)), None);
    let mut screen = BorrowBookScreen::new(&form(&[]));
    assert_eq!(screen.handle_key_event(key(KeyCode::Enter)), None);
    let mut state = form(&["1"]);
    let mut screen = BorrowBookScreen::new(&state);
    assert_eq!(screen.handle_key_event(key(KeyCode::Char('2'))), None);
    screen.save_state(&mut state);
    assert_eq!(state, form(&["12"]));
}

#[test]
fn return_form_submits_its_text() {
    let mut screen = ReturnBookScreen::new(&form(&["12"]));
    assert_eq!(screen.form.fields[0].label, "ID du livre à retourner");
    assert_eq!(
        screen.handle_key_event(key(KeyCode::Enter)),
        Some(BookAction::SubmitReturn("12".to_string()))
    );
    let mut state = form(&[""]);
    let mut screen = ReturnBookScreen::new(&state);
    assert_eq!(screen.handle_key_event(key(KeyCode::Enter)), None);
    assert_eq!(screen.handle_key_event(key(KeyCode::Char('7'))), None);
    screen.save_state(&mut state);
    assert_eq!(state, form(&["7"]));
}

#[test]
fn add_author_form_submits_three_texts() {
    let mut screen = AddAuthorScreen::new(&form(&["9", "Victor", "Hugo"]));
    assert_eq!(screen.form.fields[1].label, "Prénom");
    assert_eq!(
        screen.handle_key_event(key(KeyCode::Enter)),
        Some(AuthorAction::SubmitAdd(strings(&["9", "Victor", "Hugo"])))
    );
    assert_eq!(screen.handle_key_event(shift(KeyCode::Enter)), None);
    let mut state = form(&["9", "", "Hugo"]);
    let mut screen = AddAuthorScreen::new(&state);
    assert_eq!(screen.handle_key_event(key(KeyCode::Enter)), None);
    assert_eq!(screen.handle_key_event(key(KeyCode::Down)), None);
    assert_eq!(screen.handle_key_event(key(KeyCode::Char('V'))), None);
    screen.save_state(&mut state);
    assert_eq!(state, FormState { fields: strings(&["9", "V", "Hugo"]), focused_field: 1 });
}

#[test]
fn message_screen_shows_its_state() {
    let state = MessageState { title: "Succès".to_string(), message: "ok".to_string(), is_error: false };
    let screen = MessageScreen::new(&state);
    assert_eq!(screen.state, &state);
}

#[test]
fn author_rows_are_headings_books_and_blank_rows() {
    let mut b = Bibliotheque::new();
    assert!(ListAuthorsScreen::rows(&b).is_empty());
    b.ajouter_livre(Livre::new(10, "dix".to_string(), 1, 1910));
    let mut a1 = Auteur::new(1, "a".to_string(), "A".to_string());
    a1.add_livre(10);
    a1.add_livre(11);
    b.ajouter_auteur(a1);
    b.ajouter_auteur(Auteur::new(2, "b".to_string(), "B".to_string()));
    let rows = ListAuthorsScreen::rows(&b);
    assert_eq!(rows.len(), 6);
    assert_eq!(rows.len(), ListAuthorsScreen::total_items(b.lister_auteurs()));
    assert!(matches!(rows[0], AuthorRow::Header(a) if a.id == 1));
    assert!(matches!(rows[1], AuthorRow::Book(10, Some(l)) if l.titre == "dix"));
    assert!(matches!(rows[2], AuthorRow::Book(11, None)));
    assert!(matches!(rows[3], AuthorRow::Blank));
    assert!(matches!(rows[4], AuthorRow::Header(a) if a.id == 2));
    assert!(matches!(rows[5], AuthorRow::Blank));
}
