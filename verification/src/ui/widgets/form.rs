use crate::app::state::{lemme_rang_suivant, textes, FormState, FormStateView};
use crate::texte::{blanc, est_blanc, joindre};
use crate::ui::event::{KeyCode, KeyEvent};
use crate::ui::widgets::text_input::{vues_champs, TextInput, TextInputView};
use vstd::prelude::*;

verus! {

/// Text fields one below the other, one of which has the focus.
pub struct Form {
    pub fields: Vec<TextInput>,
    pub focused_field: usize,
}

/// The mathematical value of a [`Form`].
pub ghost struct FormView {
    pub fields: Seq<TextInputView>,
    pub focused_field: usize,
}

impl View for Form {
    type V = FormView;

    open spec fn view(&self) -> FormView {
        FormView { fields: vues_champs(self.fields@), focused_field: self.focused_field }
    }
}

/// The smaller of two lengths.
pub open spec fn plus_petit(a: nat, b: nat) -> nat {
    if a <= b {
        a
    } else {
        b
    }
}

/// The error that `validate` gives for a blank field labelled `label`.
pub open spec fn champ_vide(label: Seq<char>) -> Seq<char> {
    "Le champ '"@ + label + "' ne peut pas être vide"@
}

impl FormView {
    /// The cursor of every field lies within its text.
    pub open spec fn bien_forme(self) -> bool {
        forall|i: int| 0 <= i < self.fields.len() ==> (#[trigger] self.fields[i]).bien_forme()
    }

    /// The form of one field for each label and value, as far as both go,
    /// with the focus on the first.
    pub open spec fn with_values(labels: Seq<Seq<char>>, values: Seq<Seq<char>>) -> FormView {
        FormView {
            fields: Seq::new(
                plus_petit(labels.len(), values.len()),
                |i: int| TextInputView::with_value(labels[i], values[i]),
            ),
            focused_field: 0,
        }
    }

    /// The form of one empty field for each label, with the focus on the first.
    pub open spec fn new(labels: Seq<Seq<char>>) -> FormView {
        FormView {
            fields: Seq::new(
                labels.len(),
                |i: int| TextInputView::with_value(labels[i], Seq::empty()),
            ),
            focused_field: 0,
        }
    }

    /// The form that a form screen builds from its state: one field for each
    /// label and text, as far as both go, with the focus where the state has it.
    pub open spec fn from_state(labels: Seq<Seq<char>>, state: FormStateView) -> FormView {
        FormView {
            focused_field: state.focused_field,
            ..FormView::with_values(labels, state.fields)
        }
    }

    /// The texts of the fields, in order.
    pub open spec fn values(self) -> Seq<Seq<char>> {
        self.fields.map_values(|c: TextInputView| c.value)
    }

    /// What a form screen keeps of the form: the texts and the focus.
    pub open spec fn state(self) -> FormStateView {
        FormStateView { fields: self.values(), focused_field: self.focused_field }
    }

    /// The form has `n` fields, and none of them is blank.
    pub open spec fn complete(self, n: nat) -> bool {
        self.fields.len() == n && !self.a_un_blanc()
    }

    /// Some field is blank.
    pub open spec fn a_un_blanc(self) -> bool {
        exists|i: int| 0 <= i < self.fields.len() && est_blanc((#[trigger] self.fields[i]).value)
    }

    /// The form with the focus on the next field, and on the first after the last.
    pub open spec fn focus_next(self) -> FormView {
        if self.fields.len() == 0 {
            self
        } else {
            FormView {
                focused_field: ((self.focused_field + 1) % (self.fields.len() as int)) as usize,
                ..self
            }
        }
    }

    /// The form with the focus on the field before, and on the last before
    /// the first.
    pub open spec fn focus_prev(self) -> FormView {
        if self.fields.len() == 0 {
            self
        } else if self.focused_field == 0 {
            FormView { focused_field: (self.fields.len() - 1) as usize, ..self }
        } else {
            FormView { focused_field: (self.focused_field - 1) as usize, ..self }
        }
    }

    /// The form after the key `key`, and whether the key moved the focus.
    /// Tab and the down arrow move it on, back-tab and the up arrow move it
    /// back; any other key goes to the field that has the focus, if there is
    /// one.
    pub open spec fn handle_key(self, key: KeyEvent) -> (FormView, bool) {
        match key.code {
            KeyCode::Tab | KeyCode::Down => (self.focus_next(), true),
            KeyCode::BackTab | KeyCode::Up => (self.focus_prev(), true),
            _ => if self.focused_field < self.fields.len() {
                (
                    FormView {
                        fields: self.fields.update(
                            self.focused_field as int,
                            self.fields[self.focused_field as int].handle_key(key),
                        ),
                        ..self
                    },
                    false,
                )
            } else {
                (self, false)
            },
        }
    }

    /// The form with the texts `values` in its fields, as far as both go;
    /// each cursor that got a text stands after its last character.
    pub open spec fn set_values(self, values: Seq<Seq<char>>) -> FormView {
        FormView {
            fields: Seq::new(
                self.fields.len(),
                |i: int|
                    if i < values.len() {
                        TextInputView {
                            value: values[i],
                            cursor: values[i].len(),
                            ..self.fields[i]
                        }
                    } else {
                        self.fields[i]
                    },
            ),
            ..self
        }
    }

    /// The form with every field empty, and the focus on the first.
    pub open spec fn clear(self) -> FormView {
        FormView {
            fields: Seq::new(
                self.fields.len(),
                |i: int| TextInputView { value: Seq::empty(), cursor: 0, ..self.fields[i] },
            ),
            focused_field: 0,
        }
    }

    /// The errors of the blank fields among the first `n`, in the fields' order.
    pub open spec fn erreurs(self, n: nat) -> Seq<Seq<char>>
        decreases n,
    {
        if n == 0 {
            Seq::empty()
        } else if est_blanc(self.fields[n - 1].value) {
            self.erreurs((n - 1) as nat).push(champ_vide(self.fields[n - 1].label))
        } else {
            self.erreurs((n - 1) as nat)
        }
    }
}

/// A form has a blank field exactly when `erreurs` lists an error.
pub proof fn lemme_erreurs(form: FormView, n: nat)
    requires
        n <= form.fields.len(),
    ensures
        form.erreurs(n).len() == 0 <==> forall|i: int|
            0 <= i < n ==> !est_blanc((#[trigger] form.fields[i]).value),
    decreases n,
{
    if n > 0 {
        lemme_erreurs(form, (n - 1) as nat);
    }
}

impl Form {
    /// The cursor of every field lies within its text. Every operation keeps
    /// it so.
    pub open spec fn bien_forme(&self) -> bool {
        self@.bien_forme()
    }

    /// One empty field for each label, with the focus on the first.
    pub fn new(labels: Vec<String>) -> (form: Self)
        ensures
            form@ == FormView::new(textes(labels@)),
            form.bien_forme(),
    {
        let mut fields: Vec<TextInput> = Vec::new();
        let mut i: usize = 0;
        while i < labels.len()
            invariant
                i <= labels.len(),
                fields.len() == i,
                forall|k: int|
                    0 <= k < i ==> (#[trigger] fields[k])@ == TextInputView::with_value(
                        labels[k]@,
                        Seq::empty(),
                    ),
            decreases labels.len() - i,
        {
            fields.push(TextInput::new(labels[i].clone()));
            i += 1;
        }
        let form = Form { fields, focused_field: 0 };
        assert(form@.fields =~= FormView::new(textes(labels@)).fields);
        form
    }

    /// One field for each label and value, as far as both go, with the focus
    /// on the first.
    pub fn with_values(labels: Vec<String>, values: Vec<String>) -> (form: Self)
        ensures
            form@ == FormView::with_values(textes(labels@), textes(values@)),
            form.bien_forme(),
    {
        let n: usize = if labels.len() <= values.len() {
            labels.len()
        } else {
            values.len()
        };
        let mut fields: Vec<TextInput> = Vec::new();
        let mut i: usize = 0;
        while i < n
            invariant
                i <= n,
                n <= labels.len(),
                n <= values.len(),
                fields.len() == i,
                forall|k: int|
                    0 <= k < i ==> (#[trigger] fields[k])@ == TextInputView::with_value(
                        labels[k]@,
                        values[k]@,
                    ),
            decreases n - i,
        {
            fields.push(TextInput::with_value(labels[i].clone(), values[i].clone()));
            i += 1;
        }
        let form = Form { fields, focused_field: 0 };
        assert(form@.fields =~= FormView::with_values(textes(labels@), textes(values@)).fields);
        form
    }

    /// The form that a form screen builds from its state.
    pub fn from_state(labels: Vec<String>, state: &FormState) -> (form: Self)
        ensures
            form@ == FormView::from_state(textes(labels@), state@),
            form.bien_forme(),
    {
        let mut form = Form::with_values(labels, state.fields.clone());
        form.focused_field = state.focused_field;
        form
    }

    /// Writes to `state` what a form screen keeps of the form.
    pub fn save_state(&self, state: &mut FormState)
        ensures
            final(state)@ == self@.state(),
    {
        state.fields = self.values();
        state.focused_field = self.focused_field;
    }

    /// Whether the form has `n` fields, none of them blank.
    pub fn is_complete(&self, n: usize) -> (complete: bool)
        ensures
            complete == self@.complete(n as nat),
    {
        if self.fields.len() != n {
            return false;
        }
        let mut i: usize = 0;
        while i < self.fields.len()
            invariant
                i <= self.fields.len(),
                forall|k: int| 0 <= k < i ==> !est_blanc((#[trigger] self@.fields[k]).value),
            decreases self.fields.len() - i,
        {
            if blanc(self.fields[i].value()) {
                assert(est_blanc(self@.fields[i as int].value));
                return false;
            }
            i += 1;
        }
        true
    }

    /// Handles one key, and tells whether it moved the focus.
    pub fn handle_key_event(&mut self, key: KeyEvent) -> (moved: bool)
        requires
            old(self).bien_forme(),
        ensures
            (final(self)@, moved) == old(self)@.handle_key(key),
            final(self).bien_forme(),
    {
        match key.code {
            KeyCode::Tab | KeyCode::Down => {
                self.focus_next();
                true
            },
            KeyCode::BackTab | KeyCode::Up => {
                self.focus_prev();
                true
            },
            _ => {
                if self.focused_field < self.fields.len() {
                    let ghost avant = self.fields@;
                    assert(self@.fields[self.focused_field as int].bien_forme());
                    self.fields[self.focused_field].handle_key_event(key);
                    assert(vues_champs(self.fields@) =~= vues_champs(avant).update(
                        self.focused_field as int,
                        vues_champs(avant)[self.focused_field as int].handle_key(key),
                    ));
                }
                false
            },
        }
    }

    /// Moves the focus to the next field, and to the first after the last.
    pub fn focus_next(&mut self)
        ensures
            final(self)@ == old(self)@.focus_next(),
            final(self).fields == old(self).fields,
    {
        let n: usize = self.fields.len();
        if n > 0 {
            proof {
                lemme_rang_suivant(self.focused_field as int, n as int);
            }
            self.focused_field = (self.focused_field % n + 1) % n;
        }
    }

    /// Moves the focus to the field before, and to the last before the first.
    pub fn focus_prev(&mut self)
        ensures
            final(self)@ == old(self)@.focus_prev(),
            final(self).fields == old(self).fields,
    {
        if !self.fields.is_empty() {
            if self.focused_field == 0 {
                self.focused_field = self.fields.len() - 1;
            } else {
                self.focused_field -= 1;
            }
        }
    }

    /// The texts of the fields, in order.
    pub fn values(&self) -> (values: Vec<String>)
        ensures
            textes(values@) == self@.values(),
    {
        let mut values: Vec<String> = Vec::new();
        let mut i: usize = 0;
        while i < self.fields.len()
            invariant
                i <= self.fields.len(),
                values.len() == i,
                forall|k: int| 0 <= k < i ==> (#[trigger] values[k])@ == self.fields[k]@.value,
            decreases self.fields.len() - i,
        {
            values.push(self.fields[i].value().to_owned());
            i += 1;
        }
        values
    }

    /// The text of the field at `index`, if there is one.
    pub fn get_value(&self, index: usize) -> (value: Option<&str>)
        ensures
            match value {
                Some(text) => index < self@.fields.len() && text@ == self@.fields[index as int].value,
                None => index >= self@.fields.len(),
            },
    {
        if index < self.fields.len() {
            Some(self.fields[index].value())
        } else {
            None
        }
    }

    /// Puts the texts `values` in the fields, as far as both go.
    pub fn set_values(&mut self, values: Vec<String>)
        ensures
            final(self)@ == old(self)@.set_values(textes(values@)),
            old(self).bien_forme() ==> final(self).bien_forme(),
    {
        let mut i: usize = 0;
        while i < values.len() && i < self.fields.len()
            invariant
                self.fields.len() == old(self).fields.len(),
                self.focused_field == old(self).focused_field,
                forall|k: int|
                    0 <= k < self.fields.len() ==> (#[trigger] self.fields[k])@ == if k < i && k
                        < values.len() {
                        TextInputView {
                            value: values[k]@,
                            cursor: values[k]@.len(),
                            ..old(self).fields[k]@
                        }
                    } else {
                        old(self).fields[k]@
                    },
            decreases values.len() - i,
        {
            self.fields[i].set_value(values[i].clone());
            i += 1;
        }
        assert(self@.fields =~= old(self)@.set_values(textes(values@)).fields);
    }

    /// Empties every field, and puts the focus on the first.
    pub fn clear(&mut self)
        ensures
            final(self)@ == old(self)@.clear(),
            final(self).bien_forme(),
    {
        let mut i: usize = 0;
        while i < self.fields.len()
            invariant
                self.fields.len() == old(self).fields.len(),
                forall|k: int|
                    0 <= k < self.fields.len() ==> (#[trigger] self.fields[k])@ == if k < i {
                        TextInputView { value: Seq::empty(), cursor: 0, ..old(self).fields[k]@ }
                    } else {
                        old(self).fields[k]@
                    },
            decreases self.fields.len() - i,
        {
            self.fields[i].clear();
            i += 1;
        }
        self.focused_field = 0;
        assert(self@.fields =~= old(self)@.clear().fields);
    }

    /// Checks that no field is blank. Where some are, the errors name them
    /// by their labels, in the fields' order.
    pub fn validate(&self) -> (res: Result<(), Vec<String>>)
        ensures
            match res {
                Ok(()) => !self@.a_un_blanc(),
                Err(errors) => self@.a_un_blanc() && textes(errors@) == self@.erreurs(
                    self@.fields.len(),
                ),
            },
    {
        let mut errors: Vec<String> = Vec::new();
        let mut i: usize = 0;
        while i < self.fields.len()
            invariant
                i <= self.fields.len(),
                textes(errors@) == self@.erreurs(i as nat),
            decreases self.fields.len() - i,
        {
            if blanc(self.fields[i].value()) {
                let ghost avant = errors@;
                let debut = joindre("Le champ '", self.fields[i].label.as_str());
                errors.push(joindre(debut.as_str(), "' ne peut pas être vide"));
                assert(textes(errors@) =~= textes(avant).push(
                    champ_vide(self@.fields[i as int].label),
                ));
            }
            i += 1;
        }
        proof {
            lemme_erreurs(self@, self@.fields.len());
        }
        if errors.is_empty() {
            Ok(())
        } else {
            Err(errors)
        }
    }
}

} // verus!
