//! The widgets that the form screens are built from.

pub mod form;
pub mod text_input;

pub use form::{Form, FormView};
pub use text_input::{TextInput, TextInputView};
