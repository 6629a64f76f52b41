use crate::ui::event::{KeyCode, KeyEvent};
use tui_input::{Input, InputRequest};
use vstd::prelude::*;

verus! {

/// The line editor of the `tui_input` crate: a text and a cursor in it.
#[verifier::external_type_specification]
#[verifier::external_body]
pub struct ExInput(tui_input::Input);

/// The text that an `Input` holds.
pub uninterp spec fn input_value(input: Input) -> Seq<char>;

/// The place of the cursor of an `Input`, counted in characters from the
/// start of its text.
pub uninterp spec fn input_cursor(input: Input) -> nat;

/// The cursor of `input` lies within its text, or right after its end.
pub open spec fn input_bien_forme(input: Input) -> bool {
    input_cursor(input) <= input_value(input).len()
}

/// `Input::default()` is the editor of the empty text, with the cursor at 0.
pub assume_specification[ <Input as Default>::default ]() -> (input: Input)
    ensures
        input_value(input) == Seq::<char>::empty(),
        input_cursor(input) == 0,
;

/// `Input::with_value` replaces the text by `value` and puts the cursor
/// after its last character.
pub assume_specification[ Input::with_value ](input: Input, value: String) -> (res: Input)
    ensures
        input_value(res) == value@,
        input_cursor(res) == value@.len(),
;

/// `Input::value` is the text that the editor holds.
pub assume_specification<'a>[ Input::value ](input: &'a Input) -> (value: &'a str)
    ensures
        value@ == input_value(*input),
;

/// One change that a key press asks of a line editor.
#[derive(Clone, Copy, Debug, PartialEq, Eq, Structural)]
pub enum EditRequest {
    InsertChar(char),
    DeletePrevChar,
    DeleteNextChar,
    GoToPrevChar,
    GoToNextChar,
    GoToStart,
    GoToEnd,
}

/// The text `value` after the request `request`, with the cursor at `cursor`.
pub open spec fn edited_value(value: Seq<char>, cursor: nat, request: EditRequest) -> Seq<char> {
    match request {
        EditRequest::InsertChar(c) => value.insert(cursor as int, c),
        EditRequest::DeletePrevChar => if cursor > 0 {
            value.remove(cursor - 1)
        } else {
            value
        },
        EditRequest::DeleteNextChar => if cursor < value.len() {
            value.remove(cursor as int)
        } else {
            value
        },
        _ => value,
    }
}

/// The place of the cursor after the request `request` on the text `value`,
/// with the cursor at `cursor` before.
pub open spec fn edited_cursor(value: Seq<char>, cursor: nat, request: EditRequest) -> nat {
    match request {
        EditRequest::InsertChar(_) => cursor + 1,
        EditRequest::DeletePrevChar | EditRequest::GoToPrevChar => if cursor > 0 {
            (cursor - 1) as nat
        } else {
            0
        },
        EditRequest::DeleteNextChar => cursor,
        EditRequest::GoToNextChar => if cursor < value.len() {
            cursor + 1
        } else {
            cursor
        },
        EditRequest::GoToStart => 0,
        EditRequest::GoToEnd => value.len(),
    }
}

/// `Input::handle` carries out one request. Inserting puts the character at
/// the cursor and moves the cursor behind it. Deleting removes the character
/// before the cursor, and moves the cursor back by one, or the character at
/// the cursor; where there is no such character nothing changes. The four
/// moves take the cursor one character back or forth, as far as the text
/// goes, or to its start or end.
#[verifier::external_body]
pub(crate) fn input_handle(input: &mut Input, request: EditRequest)
    requires
        input_bien_forme(*old(input)),
    ensures
        input_value(*final(input)) == edited_value(
            input_value(*old(input)),
            input_cursor(*old(input)),
            request,
        ),
        input_cursor(*final(input)) == edited_cursor(
            input_value(*old(input)),
            input_cursor(*old(input)),
            request,
        ),
{
    input.handle(
        match request {
            EditRequest::InsertChar(c) => InputRequest::InsertChar(c),
            EditRequest::DeletePrevChar => InputRequest::DeletePrevChar,
            EditRequest::DeleteNextChar => InputRequest::DeleteNextChar,
            EditRequest::GoToPrevChar => InputRequest::GoToPrevChar,
            EditRequest::GoToNextChar => InputRequest::GoToNextChar,
            EditRequest::GoToStart => InputRequest::GoToStart,
            EditRequest::GoToEnd => InputRequest::GoToEnd,
        },
    );
}

/// What a key asks of a line editor, if anything.
pub open spec fn edit_request(code: KeyCode) -> Option<EditRequest> {
    match code {
        KeyCode::Char(c) => Some(EditRequest::InsertChar(c)),
        KeyCode::Backspace => Some(EditRequest::DeletePrevChar),
        KeyCode::Delete => Some(EditRequest::DeleteNextChar),
        KeyCode::Left => Some(EditRequest::GoToPrevChar),
        KeyCode::Right => Some(EditRequest::GoToNextChar),
        KeyCode::Home => Some(EditRequest::GoToStart),
        KeyCode::End => Some(EditRequest::GoToEnd),
        _ => None,
    }
}

/// A labelled one-line text field.
pub struct TextInput {
    pub input: Input,
    pub label: String,
    pub focused: bool,
}

/// The mathematical value of a [`TextInput`].
pub ghost struct TextInputView {
    pub value: Seq<char>,
    pub cursor: nat,
    pub label: Seq<char>,
    pub focused: bool,
}

impl View for TextInput {
    type V = TextInputView;

    open spec fn view(&self) -> TextInputView {
        TextInputView {
            value: input_value(self.input),
            cursor: input_cursor(self.input),
            label: self.label@,
            focused: self.focused,
        }
    }
}

impl TextInputView {
    /// The cursor lies within the text, or right after its end.
    pub open spec fn bien_forme(self) -> bool {
        self.cursor <= self.value.len()
    }

    /// The field labelled `label` that holds `value`, with the cursor after
    /// the last character, without the focus.
    pub open spec fn with_value(label: Seq<char>, value: Seq<char>) -> TextInputView {
        TextInputView { value, cursor: value.len(), label, focused: false }
    }

    /// The field after the request `request`.
    pub open spec fn edit(self, request: EditRequest) -> TextInputView {
        TextInputView {
            value: edited_value(self.value, self.cursor, request),
            cursor: edited_cursor(self.value, self.cursor, request),
            ..self
        }
    }

    /// The field after the key `key`: edited as the key asks, or as it was
    /// where the key asks nothing of a text field.
    pub open spec fn handle_key(self, key: KeyEvent) -> TextInputView {
        match edit_request(key.code) {
            Some(request) => self.edit(request),
            None => self,
        }
    }
}

/// Whatever a field is asked, its cursor stays within its text.
pub proof fn curseur_reste_dans_le_texte(champ: TextInputView, request: EditRequest)
    requires
        champ.bien_forme(),
    ensures
        champ.edit(request).bien_forme(),
{
}

/// Typing a character and then pressing backspace leaves the field as it was.
pub proof fn inserer_puis_effacer(champ: TextInputView, c: char)
    requires
        champ.bien_forme(),
    ensures
        champ.edit(EditRequest::InsertChar(c)).edit(EditRequest::DeletePrevChar) == champ,
{
    assert(champ.value.insert(champ.cursor as int, c).remove(champ.cursor as int) =~= champ.value);
}

/// A field fresh from its text has the cursor at the end: a character typed
/// then joins the end of the text, and backspace removes the last character.
pub proof fn saisie_en_fin_de_texte(label: Seq<char>, value: Seq<char>, c: char)
    ensures
        TextInputView::with_value(label, value).edit(EditRequest::InsertChar(c)).value
            == value.push(c),
        value.len() > 0 ==> TextInputView::with_value(label, value).edit(
            EditRequest::DeletePrevChar,
        ).value == value.drop_last(),
        TextInputView::with_value(label, value).edit(EditRequest::DeleteNextChar).value == value,
{
}

impl TextInput {
    /// The cursor lies within the text. Every operation keeps it so.
    pub open spec fn bien_forme(&self) -> bool {
        self@.bien_forme()
    }

    /// The empty field labelled `label`.
    pub fn new(label: String) -> (champ: Self)
        ensures
            champ@ == TextInputView::with_value(label@, Seq::empty()),
            champ.bien_forme(),
    {
        TextInput { input: Input::default(), label, focused: false }
    }

    /// The field labelled `label` that holds `value`, with the cursor after
    /// the last character.
    pub fn with_value(label: String, value: String) -> (champ: Self)
        ensures
            champ@ == TextInputView::with_value(label@, value@),
            champ.bien_forme(),
    {
        TextInput { input: Input::default().with_value(value), label, focused: false }
    }

    /// Carries out what the key asks of a text field; other keys change nothing.
    pub fn handle_key_event(&mut self, key: KeyEvent)
        requires
            old(self).bien_forme(),
        ensures
            final(self)@ == old(self)@.handle_key(key),
            final(self).bien_forme(),
    {
        match key.code {
            KeyCode::Char(c) => input_handle(&mut self.input, EditRequest::InsertChar(c)),
            KeyCode::Backspace => input_handle(&mut self.input, EditRequest::DeletePrevChar),
            KeyCode::Delete => input_handle(&mut self.input, EditRequest::DeleteNextChar),
            KeyCode::Left => input_handle(&mut self.input, EditRequest::GoToPrevChar),
            KeyCode::Right => input_handle(&mut self.input, EditRequest::GoToNextChar),
            KeyCode::Home => input_handle(&mut self.input, EditRequest::GoToStart),
            KeyCode::End => input_handle(&mut self.input, EditRequest::GoToEnd),
            _ => {},
        }
    }

    /// The text of the field.
    pub fn value(&self) -> (value: &str)
        ensures
            value@ == self@.value,
    {
        self.input.value()
    }

    /// Replaces the text by `value`, and puts the cursor after its last character.
    pub fn set_value(&mut self, value: String)
        ensures
            final(self)@ == (TextInputView { value: value@, cursor: value@.len(), ..old(self)@ }),
            final(self).bien_forme(),
    {
        self.input = Input::default().with_value(value);
    }

    /// Empties the field.
    pub fn clear(&mut self)
        ensures
            final(self)@ == (TextInputView { value: Seq::empty(), cursor: 0, ..old(self)@ }),
            final(self).bien_forme(),
    {
        self.input = Input::default();
    }
}

/// The views of a sequence of fields, in order.
pub open spec fn vues_champs(champs: Seq<TextInput>) -> Seq<TextInputView> {
    champs.map_values(|c: TextInput| c@)
}

} // verus!
