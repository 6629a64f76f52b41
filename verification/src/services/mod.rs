//! The store of books and authors.

pub mod bibliotheque;
pub mod lois;

pub use bibliotheque::{Bibliotheque, BibliothequeView};
