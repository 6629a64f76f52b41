use crate::app::state::{textes, FormState, ListState};
use crate::models::auteur::{vues_auteurs, Auteur, AuteurView};
use crate::models::livre::{Livre, LivreView};
use crate::services::bibliotheque::{rang_livre, Bibliotheque};
use crate::ui::event::{KeyCode, KeyEvent};
use crate::ui::widgets::form::{Form, FormView};
use vstd::prelude::*;

verus! {

/// What an author screen asks of the application.
#[derive(Debug, PartialEq, Eq)]
pub enum AuthorAction {
    /// Add the author written in the three fields: id, first name, last name.
    SubmitAdd(Vec<String>),
}

/// The mathematical value of an [`AuthorAction`].
pub ghost enum AuthorActionView {
    SubmitAdd(Seq<Seq<char>>),
}

impl View for AuthorAction {
    type V = AuthorActionView;

    open spec fn view(&self) -> AuthorActionView {
        match *self {
            AuthorAction::SubmitAdd(values) => AuthorActionView::SubmitAdd(textes(values@)),
        }
    }
}

/// The value of what an author screen returns for a key.
pub open spec fn author_action(action: Option<AuthorAction>) -> Option<AuthorActionView> {
    match action {
        Some(a) => Some(a@),
        None => None,
    }
}

/// The labels of the form that adds an author.
pub open spec fn add_author_labels() -> Seq<Seq<char>> {
    seq!["ID"@, "Prénom"@, "Nom"@]
}

/// The form that adds an author after the key `key`, and what the key asks.
/// The enter key without shift submits the three texts, provided that the
/// form has its three fields and none is blank; the form then stays as it is.
/// Any other key, and an enter key that does not submit, goes to the form.
pub open spec fn add_author_key(form: FormView, key: KeyEvent) -> (
    FormView,
    Option<AuthorActionView>,
) {
    if key.code == KeyCode::Enter && !key.modifiers.shift && form.complete(3) {
        (form, Some(AuthorActionView::SubmitAdd(form.values())))
    } else {
        (form.handle_key(key).0, None)
    }
}

/// The number of rows that the list of `auteurs` takes: for each author a
/// heading, one row for each of its books, and an empty row.
pub open spec fn author_rows(auteurs: Seq<AuteurView>) -> nat
    decreases auteurs.len(),
{
    if auteurs.len() == 0 {
        0
    } else {
        author_rows(auteurs.drop_last()) + auteurs.last().livres.len() + 2
    }
}

/// The number of rows that the cursor of the list of `auteurs` moves over:
/// `author_rows`, as far as a `usize` counts.
pub open spec fn author_row_count(auteurs: Seq<AuteurView>) -> nat {
    if author_rows(auteurs) <= usize::MAX {
        author_rows(auteurs)
    } else {
        usize::MAX as nat
    }
}

/// One row of the list of the authors.
pub enum AuthorRow<'a> {
    /// The heading of an author.
    Header(&'a Auteur),
    /// One book of the author above: its id, and the book where the store
    /// holds one with that id.
    Book(u32, Option<&'a Livre>),
    /// The empty row that ends an author.
    Blank,
}

/// The mathematical value of an [`AuthorRow`].
pub ghost enum AuthorRowView {
    Header(AuteurView),
    Book(u32, Option<LivreView>),
    Blank,
}

impl<'a> View for AuthorRow<'a> {
    type V = AuthorRowView;

    open spec fn view(&self) -> AuthorRowView {
        match *self {
            AuthorRow::Header(auteur) => AuthorRowView::Header(auteur@),
            AuthorRow::Book(id, livre) => AuthorRowView::Book(
                id,
                match livre {
                    Some(l) => Some(l@),
                    None => None,
                },
            ),
            AuthorRow::Blank => AuthorRowView::Blank,
        }
    }
}

/// The views of a sequence of rows, in order.
pub open spec fn vues_lignes(lignes: Seq<AuthorRow>) -> Seq<AuthorRowView> {
    lignes.map_values(|l: AuthorRow| l@)
}

/// The row of the book id `id` among the books `livres`: with the first
/// book that has this id, if there is one.
pub open spec fn book_row(livres: Seq<LivreView>, id: u32) -> AuthorRowView {
    AuthorRowView::Book(
        id,
        match rang_livre(livres, id) {
            Some(rang) => Some(livres[rang]),
            None => None,
        },
    )
}

/// The rows of one author: the heading, one row for each id of its list, in
/// the list's order, and an empty row.
pub open spec fn rows_of(livres: Seq<LivreView>, auteur: AuteurView) -> Seq<AuthorRowView> {
    seq![AuthorRowView::Header(auteur)] + auteur.livres.map_values(|id: u32| book_row(livres, id))
        + seq![AuthorRowView::Blank]
}

/// The rows of the list of the authors: those of the first author, then
/// those of the second, and so on.
pub open spec fn author_row_list(livres: Seq<LivreView>, auteurs: Seq<AuteurView>) -> Seq<
    AuthorRowView,
>
    decreases auteurs.len(),
{
    if auteurs.len() == 0 {
        Seq::empty()
    } else {
        author_row_list(livres, auteurs.drop_last()) + rows_of(livres, auteurs.last())
    }
}

/// The list of the authors has as many rows as `author_rows` counts.
pub proof fn lemme_author_rows(livres: Seq<LivreView>, auteurs: Seq<AuteurView>)
    ensures
        author_row_list(livres, auteurs).len() == author_rows(auteurs),
    decreases auteurs.len(),
{
    if auteurs.len() > 0 {
        lemme_author_rows(livres, auteurs.drop_last());
    }
}

/// The screen that adds an author.
pub struct AddAuthorScreen {
    pub form: Form,
}

impl AddAuthorScreen {
    /// The screen on the texts and the focus of `state`.
    pub fn new(state: &FormState) -> (screen: Self)
        ensures
            screen.form@ == FormView::from_state(add_author_labels(), state@),
            screen.form.bien_forme(),
    {
        let mut labels: Vec<String> = Vec::new();
        labels.push("ID".to_owned());
        labels.push("Prénom".to_owned());
        labels.push("Nom".to_owned());
        assert(textes(labels@) =~= add_author_labels());
        AddAuthorScreen { form: Form::from_state(labels, state) }
    }

    /// Handles one key, and says what it asks of the application.
    pub fn handle_key_event(&mut self, key: KeyEvent) -> (action: Option<AuthorAction>)
        requires
            old(self).form.bien_forme(),
        ensures
            (final(self).form@, author_action(action)) == add_author_key(old(self).form@, key),
            final(self).form.bien_forme(),
    {
        if key.code == KeyCode::Enter && !key.modifiers.shift && self.form.is_complete(3) {
            return Some(AuthorAction::SubmitAdd(self.form.values()));
        }
        self.form.handle_key_event(key);
        None
    }

    /// Writes the texts and the focus of the screen to `state`.
    pub fn save_state(&self, state: &mut FormState)
        ensures
            final(state)@ == self.form@.state(),
    {
        self.form.save_state(state);
    }
}

/// The screen that lists the authors, each with its books.
pub struct ListAuthorsScreen<'a> {
    pub biblio: &'a Bibliotheque,
    pub state: &'a mut ListState,
}

impl<'a> ListAuthorsScreen<'a> {
    /// The screen on the authors of `biblio` and the cursor `state`: what the
    /// screen does to its cursor is done to `state`.
    pub fn new(biblio: &'a Bibliotheque, state: &'a mut ListState) -> (screen: Self)
        ensures
            screen.biblio == biblio,
            *screen.state == *old(state),
            *final(screen.state) == *final(state),
    {
        ListAuthorsScreen { biblio, state }
    }

    /// The number of rows of the list of `auteurs`, as far as a `usize` counts.
    pub fn total_items(auteurs: &Vec<Auteur>) -> (total: usize)
        ensures
            total == author_row_count(vues_auteurs(auteurs@)),
    {
        let ghost vues = vues_auteurs(auteurs@);
        let mut total: usize = 0;
        let mut i: usize = 0;
        while i < auteurs.len()
            invariant
                i <= auteurs.len(),
                vues == vues_auteurs(auteurs@),
                total == author_row_count(vues.take(i as int)),
            decreases auteurs.len() - i,
        {
            let n: usize = auteurs[i].livres.len();
            proof {
                assert(vues.take(i + 1).drop_last() == vues.take(i as int));
            }
            if n > usize::MAX - 2 || total > usize::MAX - 2 - n {
                total = usize::MAX;
            } else {
                total = total + n + 2;
            }
            i += 1;
        }
        proof {
            assert(vues.take(i as int) == vues);
        }
        total
    }

    /// The rows of the list of the authors of `biblio`, from the first to the
    /// last: they are as many as the cursor moves over.
    pub fn rows(biblio: &'a Bibliotheque) -> (rows: Vec<AuthorRow<'a>>)
        ensures
            vues_lignes(rows@) == author_row_list(biblio@.livres, biblio@.auteurs),
            rows.len() == author_rows(biblio@.auteurs),
    {
        let auteurs: &'a Vec<Auteur> = biblio.lister_auteurs();
        let ghost livres = biblio@.livres;
        let ghost vues = vues_auteurs(auteurs@);
        let mut rows: Vec<AuthorRow<'a>> = Vec::new();
        let mut i: usize = 0;
        while i < auteurs.len()
            invariant
                i <= auteurs.len(),
                livres == biblio@.livres,
                vues == vues_auteurs(auteurs@),
                vues_lignes(rows@) == author_row_list(livres, vues.take(i as int)),
            decreases auteurs.len() - i,
        {
            let auteur: &'a Auteur = &auteurs[i];
            let ghost debut = vues_lignes(rows@);
            let ghost attendu = rows_of(livres, auteur@);
            rows.push(AuthorRow::Header(auteur));
            let mut k: usize = 0;
            while k < auteur.livres.len()
                invariant
                    k <= auteur.livres.len(),
                    livres == biblio@.livres,
                    attendu == rows_of(livres, auteur@),
                    vues_lignes(rows@) == debut + attendu.take(k + 1),
                decreases auteur.livres.len() - k,
            {
                let id: u32 = auteur.livres[k];
                let ghost avant = vues_lignes(rows@);
                rows.push(AuthorRow::Book(id, biblio.trouver_livre(id)));
                assert(vues_lignes(rows@) =~= avant.push(book_row(livres, id)));
                k += 1;
            }
            let ghost avant = vues_lignes(rows@);
            rows.push(AuthorRow::Blank);
            proof {
                assert(vues_lignes(rows@) =~= avant.push(AuthorRowView::Blank));
                assert(vues.take(i + 1).drop_last() == vues.take(i as int));
            }
            i += 1;
        }
        proof {
            assert(vues.take(i as int) == vues);
            lemme_author_rows(livres, vues);
        }
        rows
    }

    /// Handles one key: moves the cursor over the rows of the list.
    pub fn handle_key_event(&mut self, key: KeyEvent)
        ensures
            *final(self).state == old(self).state.navigated(
                key,
                author_row_count(old(self).biblio@.auteurs),
            ),
            *final(final(self).state) == *final(old(self).state),
            final(self).biblio == old(self).biblio,
    {
        let count: usize = Self::total_items(self.biblio.lister_auteurs());
        self.state.navigate(key, count);
    }
}

} // verus!
