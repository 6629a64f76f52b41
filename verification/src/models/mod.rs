//! The two record types held by the store.

pub mod auteur;
pub mod livre;

pub use auteur::{Auteur, AuteurView};
pub use livre::{Livre, LivreView};
