use vstd::prelude::*;

verus! {

/// An author. `livres` holds the ids of the books associated with the author,
/// in the order in which they were associated; an id may occur more than once.
#[derive(Debug, PartialEq, Eq)]
pub struct Auteur {
    pub id: u32,
    pub prenom: String,
    pub nom: String,
    pub livres: Vec<u32>,
}

/// The mathematical value of an [`Auteur`].
pub ghost struct AuteurView {
    pub id: u32,
    pub prenom: Seq<char>,
    pub nom: Seq<char>,
    pub livres: Seq<u32>,
}

impl View for Auteur {
    type V = AuteurView;

    open spec fn view(&self) -> AuteurView {
        AuteurView { id: self.id, prenom: self.prenom@, nom: self.nom@, livres: self.livres@ }
    }
}

impl Auteur {
    /// An author with no book.
    pub fn new(id: u32, prenom: String, nom: String) -> (auteur: Self)
        ensures
            auteur.id == id,
            auteur.prenom == prenom,
            auteur.nom == nom,
            auteur@ == (AuteurView { id, prenom: prenom@, nom: nom@, livres: Seq::empty() }),
    {
        Auteur { id, prenom, nom, livres: Vec::new() }
    }

    /// Appends a book id to the author's list. Nothing is checked: the same id
    /// may be appended twice.
    pub fn add_livre(&mut self, livre_id: u32)
        ensures
            final(self)@ == (AuteurView {
                livres: old(self)@.livres.push(livre_id),
                ..old(self)@
            }),
    {
        self.livres.push(livre_id);
    }
}

impl Clone for Auteur {
    fn clone(&self) -> (copie: Self)
        ensures
            copie@ == self@,
    {
        Auteur {
            id: self.id,
            prenom: self.prenom.clone(),
            nom: self.nom.clone(),
            livres: self.livres.clone(),
        }
    }
}

/// The views of a sequence of authors, in order.
pub open spec fn vues_auteurs(auteurs: Seq<Auteur>) -> Seq<AuteurView> {
    auteurs.map_values(|a: Auteur| a@)
}

} // verus!
