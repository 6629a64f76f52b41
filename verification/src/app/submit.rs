//! What a submitted form asks of the store, and what the store answers.

use crate::app::state::{textes, MessageState, MessageStateView};
use crate::models::auteur::{Auteur, AuteurView};
use crate::models::livre::{Livre, LivreView};
use crate::services::bibliotheque::{Bibliotheque, BibliothequeView};
use crate::texte::{joindre, lire_nombre, nombre_ou_zero, nombre_u32, valeur_ou_zero};
use vstd::prelude::*;

verus! {

/// What a submitted form comes to: the message to show, and whether the
/// form has done its work and gives way to the message.
#[derive(Debug, PartialEq, Eq)]
pub struct Outcome {
    pub message: MessageState,
    pub close_form: bool,
}

/// The mathematical value of an [`Outcome`].
pub ghost struct OutcomeView {
    pub message: MessageStateView,
    pub close_form: bool,
}

impl View for Outcome {
    type V = OutcomeView;

    open spec fn view(&self) -> OutcomeView {
        OutcomeView { message: self.message@, close_form: self.close_form }
    }
}

impl OutcomeView {
    /// The success that closes the form, with the text `message`.
    pub open spec fn success(message: Seq<char>) -> OutcomeView {
        OutcomeView {
            message: MessageStateView { title: "Succès"@, message, is_error: false },
            close_form: true,
        }
    }

    /// The error that leaves the form open, with the text `message`.
    pub open spec fn error(message: Seq<char>) -> OutcomeView {
        OutcomeView {
            message: MessageStateView { title: "Erreur"@, message, is_error: true },
            close_form: false,
        }
    }

    /// The warning that closes the form, with the text `message`.
    pub open spec fn warning(message: Seq<char>) -> OutcomeView {
        OutcomeView {
            message: MessageStateView { title: "Attention"@, message, is_error: false },
            close_form: true,
        }
    }
}

impl BibliothequeView {
    /// Adding the book that the four texts `values` write: id, title, author
    /// id and year, where an id or a year that is no number counts as 0. An
    /// empty title is refused, and the store stays as it is. Else the book
    /// is added, then associated with its author; where the association
    /// fails the book stays, and a warning says why.
    pub open spec fn submit_add_book(self, values: Seq<Seq<char>>) -> (
        BibliothequeView,
        OutcomeView,
    ) {
        let id = valeur_ou_zero(values[0]);
        let titre = values[1];
        let auteur_id = valeur_ou_zero(values[2]);
        let annee = valeur_ou_zero(values[3]);
        if titre.len() == 0 {
            (self, OutcomeView::error("Le titre ne peut pas être vide!"@))
        } else {
            let livre = LivreView { id, titre, auteur_id, annee, emprunte: false };
            let avec_livre = BibliothequeView { livres: self.livres.push(livre), ..self };
            let (apres, res) = avec_livre.associer(id, auteur_id);
            match res {
                Ok(()) => (apres, OutcomeView::success("Livre ajouté et associé avec succès!"@)),
                Err(e) => (apres, OutcomeView::warning("Livre ajouté mais: "@ + e)),
            }
        }
    }

    /// Borrowing the book `id`: the store afterwards, and the answer.
    pub open spec fn submit_borrow_id(self, id: u32) -> (BibliothequeView, OutcomeView) {
        let (apres, res) = self.emprunter(id);
        match res {
            Ok(()) => (apres, OutcomeView::success("Livre emprunté avec succès!"@)),
            Err(e) => (apres, OutcomeView::error("Erreur: "@ + e)),
        }
    }

    /// Borrowing the book whose id the text `id` writes; a text that is no
    /// number is refused.
    pub open spec fn submit_borrow(self, id: Seq<char>) -> (BibliothequeView, OutcomeView) {
        match nombre_u32(id) {
            None => (self, OutcomeView::error("ID invalide"@)),
            Some(n) => self.submit_borrow_id(n),
        }
    }

    /// Returning the book `id`: the store afterwards, and the answer.
    pub open spec fn submit_return_id(self, id: u32) -> (BibliothequeView, OutcomeView) {
        let (apres, res) = self.retourner(id);
        match res {
            Ok(()) => (apres, OutcomeView::success("Livre retourné avec succès!"@)),
            Err(e) => (apres, OutcomeView::error("Erreur: "@ + e)),
        }
    }

    /// Returning the book whose id the text `id` writes; a text that is no
    /// number is refused.
    pub open spec fn submit_return(self, id: Seq<char>) -> (BibliothequeView, OutcomeView) {
        match nombre_u32(id) {
            None => (self, OutcomeView::error("ID invalide"@)),
            Some(n) => self.submit_return_id(n),
        }
    }

    /// Adding the author that the three texts `values` write: id, first name
    /// and last name, where an id that is no number counts as 0. An empty
    /// name is refused, and the store stays as it is.
    pub open spec fn submit_add_author(self, values: Seq<Seq<char>>) -> (
        BibliothequeView,
        OutcomeView,
    ) {
        let id = valeur_ou_zero(values[0]);
        let prenom = values[1];
        let nom = values[2];
        if prenom.len() == 0 || nom.len() == 0 {
            (self, OutcomeView::error("Le prénom et le nom ne peuvent pas être vides!"@))
        } else {
            let auteur = AuteurView { id, prenom, nom, livres: Seq::empty() };
            (
                BibliothequeView { auteurs: self.auteurs.push(auteur), ..self },
                OutcomeView::success("Auteur ajouté avec succès!"@),
            )
        }
    }
}

impl Outcome {
    /// The success that closes the form, with the text `message`.
    pub fn success(message: String) -> (outcome: Self)
        ensures
            outcome@ == OutcomeView::success(message@),
    {
        Outcome {
            message: MessageState { title: "Succès".to_owned(), message, is_error: false },
            close_form: true,
        }
    }

    /// The error that leaves the form open, with the text `message`.
    pub fn error(message: String) -> (outcome: Self)
        ensures
            outcome@ == OutcomeView::error(message@),
    {
        Outcome {
            message: MessageState { title: "Erreur".to_owned(), message, is_error: true },
            close_form: false,
        }
    }

    /// The warning that closes the form, with the text `message`.
    pub fn warning(message: String) -> (outcome: Self)
        ensures
            outcome@ == OutcomeView::warning(message@),
    {
        Outcome {
            message: MessageState { title: "Attention".to_owned(), message, is_error: false },
            close_form: true,
        }
    }
}

/// Adds to `biblio` the book that the four texts `values` write, and
/// associates it with its author.
pub fn submit_add_book(biblio: &mut Bibliotheque, values: &Vec<String>) -> (outcome: Outcome)
    requires
        values.len() == 4,
    ensures
        (final(biblio)@, outcome@) == old(biblio)@.submit_add_book(textes(values@)),
{
    let id: u32 = nombre_ou_zero(values[0].as_str());
    let titre: String = values[1].clone();
    let auteur_id: u32 = nombre_ou_zero(values[2].as_str());
    let annee: u32 = nombre_ou_zero(values[3].as_str());

    if titre.as_str().is_empty() {
        return Outcome::error("Le titre ne peut pas être vide!".to_owned());
    }
    biblio.ajouter_livre(Livre::new(id, titre, auteur_id, annee));
    match biblio.associer_livre_auteur(id, auteur_id) {
        Ok(()) => Outcome::success("Livre ajouté et associé avec succès!".to_owned()),
        Err(e) => Outcome::warning(joindre("Livre ajouté mais: ", e.as_str())),
    }
}

/// Borrows the book `id` of `biblio`.
pub fn submit_borrow_id(biblio: &mut Bibliotheque, id: u32) -> (outcome: Outcome)
    ensures
        (final(biblio)@, outcome@) == old(biblio)@.submit_borrow_id(id),
{
    match biblio.emprunter_livre(id) {
        Ok(()) => Outcome::success("Livre emprunté avec succès!".to_owned()),
        Err(e) => Outcome::error(joindre("Erreur: ", e.as_str())),
    }
}

/// Borrows the book of `biblio` whose id the text `id_str` writes.
pub fn submit_borrow(biblio: &mut Bibliotheque, id_str: &str) -> (outcome: Outcome)
    ensures
        (final(biblio)@, outcome@) == old(biblio)@.submit_borrow(id_str@),
{
    match lire_nombre(id_str) {
        Some(id) => submit_borrow_id(biblio, id),
        None => Outcome::error("ID invalide".to_owned()),
    }
}

/// Returns the book `id` of `biblio`.
pub fn submit_return_id(biblio: &mut Bibliotheque, id: u32) -> (outcome: Outcome)
    ensures
        (final(biblio)@, outcome@) == old(biblio)@.submit_return_id(id),
{
    match biblio.retourner_livre(id) {
        Ok(()) => Outcome::success("Livre retourné avec succès!".to_owned()),
        Err(e) => Outcome::error(joindre("Erreur: ", e.as_str())),
    }
}

/// Returns the book of `biblio` whose id the text `id_str` writes.
pub fn submit_return(biblio: &mut Bibliotheque, id_str: &str) -> (outcome: Outcome)
    ensures
        (final(biblio)@, outcome@) == old(biblio)@.submit_return(id_str@),
{
    match lire_nombre(id_str) {
        Some(id) => submit_return_id(biblio, id),
        None => Outcome::error("ID invalide".to_owned()),
    }
}

/// Adds to `biblio` the author that the three texts `values` write.
pub fn submit_add_author(biblio: &mut Bibliotheque, values: &Vec<String>) -> (outcome: Outcome)
    requires
        values.len() == 3,
    ensures
        (final(biblio)@, outcome@) == old(biblio)@.submit_add_author(textes(values@)),
{
    let id: u32 = nombre_ou_zero(values[0].as_str());
    let prenom: String = values[1].clone();
    let nom: String = values[2].clone();

    if prenom.as_str().is_empty() || nom.as_str().is_empty() {
        return Outcome::error("Le prénom et le nom ne peuvent pas être vides!".to_owned());
    }
    biblio.ajouter_auteur(Auteur::new(id, prenom, nom));
    Outcome::success("Auteur ajouté avec succès!".to_owned())
}

} // verus!
