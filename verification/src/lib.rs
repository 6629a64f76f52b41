//! A small library-management core: a store of books and authors, a stack of
//! screens that navigates between them, and the key dispatch that ties the two
//! together. Beside it stands a key-value storage behind a trait. Every
//! function carries a contract that Verus proves.

pub mod app;
pub mod models;
pub mod services;
pub mod storage_system;
pub mod texte;
pub mod ui;
