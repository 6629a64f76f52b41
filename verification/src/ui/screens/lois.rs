//! What holds of the form screens, whatever the form.

use crate::texte::est_blanc;
use crate::ui::event::{KeyCode, KeyEvent};
use crate::ui::screens::author::{add_author_key, AuthorActionView};
use crate::ui::screens::book::{add_book_key, borrow_book_key, return_book_key, BookActionView};
use crate::ui::widgets::form::FormView;
use vstd::prelude::*;

verus! {

/// A form with a blank field submits nothing, whatever key is pressed.
pub proof fn champ_blanc_retient_le_formulaire(form: FormView, key: KeyEvent)
    requires
        form.a_un_blanc(),
    ensures
        add_book_key(form, key).1 is None,
        borrow_book_key(form, key).1 is None,
        return_book_key(form, key).1 is None,
        add_author_key(form, key).1 is None,
{
}

/// Only the enter key submits a form.
pub proof fn seule_la_validation_soumet(form: FormView, key: KeyEvent)
    requires
        key.code != KeyCode::Enter,
    ensures
        add_book_key(form, key).1 is None,
        borrow_book_key(form, key).1 is None,
        return_book_key(form, key).1 is None,
        add_author_key(form, key).1 is None,
{
}

/// The enter key, without shift, on a form whose fields are all there and
/// none blank submits the texts of the fields, in the fields' order, and
/// leaves the form as it is.
pub proof fn formulaire_complet_soumet(form: FormView, key: KeyEvent)
    requires
        key.code == KeyCode::Enter,
        !key.modifiers.shift,
        !form.a_un_blanc(),
    ensures
        form.fields.len() == 4 ==> add_book_key(form, key) == (
            form,
            Some(BookActionView::SubmitAdd(form.values())),
        ),
        form.fields.len() == 3 ==> add_author_key(form, key) == (
            form,
            Some(AuthorActionView::SubmitAdd(form.values())),
        ),
        form.fields.len() == 1 ==> borrow_book_key(form, key) == (
            form,
            Some(BookActionView::SubmitBorrow(form.values()[0])),
        ),
        form.fields.len() == 1 ==> return_book_key(form, key) == (
            form,
            Some(BookActionView::SubmitReturn(form.values()[0])),
        ),
{
}

/// A key that submits nothing never changes the number of fields, nor
/// their labels.
pub proof fn touche_garde_les_champs(form: FormView, key: KeyEvent)
    ensures
        ({
            let apres = form.handle_key(key).0;
            &&& apres.fields.len() == form.fields.len()
            &&& forall|i: int|
                0 <= i < form.fields.len() ==> (#[trigger] apres.fields[i]).label
                    == form.fields[i].label
        }),
{
}

/// A form with an empty field submits nothing, whatever key is pressed.
pub proof fn champ_vide_retient_le_formulaire(form: FormView, key: KeyEvent, i: int)
    requires
        0 <= i < form.fields.len(),
        form.fields[i].value.len() == 0,
    ensures
        add_book_key(form, key).1 is None,
        borrow_book_key(form, key).1 is None,
        return_book_key(form, key).1 is None,
        add_author_key(form, key).1 is None,
{
    assert(est_blanc(form.fields[i].value));
}

/// The texts that a form submits are not empty.
pub proof fn textes_soumis_non_vides(form: FormView, key: KeyEvent, i: int)
    requires
        0 <= i < form.fields.len(),
    ensures
        add_book_key(form, key).1 matches Some(BookActionView::SubmitAdd(values)) ==> values[i].len()
            > 0,
        add_author_key(form, key).1 matches Some(AuthorActionView::SubmitAdd(values))
            ==> values[i].len() > 0,
        borrow_book_key(form, key).1 matches Some(BookActionView::SubmitBorrow(id)) ==> id.len()
            > 0,
        return_book_key(form, key).1 matches Some(BookActionView::SubmitReturn(id)) ==> id.len()
            > 0,
{
    if !form.a_un_blanc() {
        assert(!est_blanc(form.fields[i].value));
        assert(!est_blanc(form.fields[0].value));
    }
}

} // verus!
