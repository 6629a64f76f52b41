//! The screens: each takes the state that is its own, handles one key, and
//! says what the key asks of the application.

pub mod author;
pub mod book;
pub mod lois;
pub mod main_menu;
pub mod message;

pub use author::{AddAuthorScreen, AuthorAction, ListAuthorsScreen};
pub use book::{AddBookScreen, BookAction, BorrowBookScreen, ListBooksScreen, ReturnBookScreen};
pub use main_menu::{MainMenu, MenuAction};
pub use message::MessageScreen;
