use vstd::prelude::*;

verus! {

/// A book. `id` is chosen by the caller; `auteur_id` need not name an author
/// that exists.
#[derive(Debug, PartialEq, Eq)]
pub struct Livre {
    pub id: u32,
    pub titre: String,
    pub auteur_id: u32,
    pub annee: u32,
    pub emprunte: bool,
}

/// The mathematical value of a [`Livre`].
pub ghost struct LivreView {
    pub id: u32,
    pub titre: Seq<char>,
    pub auteur_id: u32,
    pub annee: u32,
    pub emprunte: bool,
}

impl View for Livre {
    type V = LivreView;

    open spec fn view(&self) -> LivreView {
        LivreView {
            id: self.id,
            titre: self.titre@,
            auteur_id: self.auteur_id,
            annee: self.annee,
            emprunte: self.emprunte,
        }
    }
}

impl Livre {
    /// A book that is not borrowed.
    pub fn new(id: u32, titre: String, auteur_id: u32, annee: u32) -> (livre: Self)
        ensures
            livre == (Livre { id, titre, auteur_id, annee, emprunte: false }),
    {
        Livre { id, titre, auteur_id, annee, emprunte: false }
    }
}

impl Clone for Livre {
    fn clone(&self) -> (copie: Self)
        ensures
            copie == *self,
    {
        Livre {
            id: self.id,
            titre: self.titre.clone(),
            auteur_id: self.auteur_id,
            annee: self.annee,
            emprunte: self.emprunte,
        }
    }
}

/// The views of a sequence of books, in order.
pub open spec fn vues_livres(livres: Seq<Livre>) -> Seq<LivreView> {
    livres.map_values(|l: Livre| l@)
}

} // verus!
