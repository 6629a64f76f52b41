use crate::models::auteur::{vues_auteurs, Auteur, AuteurView};
use crate::models::livre::{vues_livres, Livre, LivreView};
use vstd::prelude::*;

verus! {

/// The store: the books and the authors, each in insertion order.
pub struct Bibliotheque {
    livres: Vec<Livre>,
    auteurs: Vec<Auteur>,
}

/// The mathematical value of a [`Bibliotheque`], with the store's operations
/// as functions on it.
pub ghost struct BibliothequeView {
    pub livres: Seq<LivreView>,
    pub auteurs: Seq<AuteurView>,
}

impl View for Bibliotheque {
    type V = BibliothequeView;

    closed spec fn view(&self) -> BibliothequeView {
        BibliothequeView { livres: vues_livres(self.livres@), auteurs: vues_auteurs(self.auteurs@) }
    }
}

/// Some book of `livres` has the id `id`.
pub open spec fn contient_livre(livres: Seq<LivreView>, id: u32) -> bool {
    exists|i: int| 0 <= i < livres.len() && (#[trigger] livres[i]).id == id
}

/// `rang` is the position of the first book of `livres` whose id is `id`.
pub open spec fn premier_livre(livres: Seq<LivreView>, id: u32, rang: int) -> bool {
    &&& 0 <= rang < livres.len()
    &&& livres[rang].id == id
    &&& forall|j: int| 0 <= j < rang ==> (#[trigger] livres[j]).id != id
}

/// The position of the first book of `livres` whose id is `id`, if any.
pub open spec fn rang_livre(livres: Seq<LivreView>, id: u32) -> Option<int> {
    if contient_livre(livres, id) {
        Some(choose|rang: int| premier_livre(livres, id, rang))
    } else {
        None
    }
}

/// Some author of `auteurs` has the id `id`.
pub open spec fn contient_auteur(auteurs: Seq<AuteurView>, id: u32) -> bool {
    exists|i: int| 0 <= i < auteurs.len() && (#[trigger] auteurs[i]).id == id
}

/// `rang` is the position of the first author of `auteurs` whose id is `id`.
pub open spec fn premier_auteur(auteurs: Seq<AuteurView>, id: u32, rang: int) -> bool {
    &&& 0 <= rang < auteurs.len()
    &&& auteurs[rang].id == id
    &&& forall|j: int| 0 <= j < rang ==> (#[trigger] auteurs[j]).id != id
}

/// The position of the first author of `auteurs` whose id is `id`, if any.
pub open spec fn rang_auteur(auteurs: Seq<AuteurView>, id: u32) -> Option<int> {
    if contient_auteur(auteurs, id) {
        Some(choose|rang: int| premier_auteur(auteurs, id, rang))
    } else {
        None
    }
}

/// The error of an operation on a book that the store does not hold.
pub open spec fn livre_non_trouve() -> Seq<char> {
    "Livre non trouvé"@
}

/// The error of an operation on an author that the store does not hold.
pub open spec fn auteur_non_trouve() -> Seq<char> {
    "Auteur non trouvé"@
}

/// The error of borrowing a book that is out.
pub open spec fn deja_emprunte() -> Seq<char> {
    "Ce livre est déjà emprunté"@
}

/// The error of returning a book that is in.
pub open spec fn pas_emprunte() -> Seq<char> {
    "Ce livre n'est pas emprunté"@
}

/// The outcome of an operation, with the text of its error.
pub open spec fn issue(res: Result<(), String>) -> Result<(), Seq<char>> {
    match res {
        Ok(()) => Ok(()),
        Err(message) => Err(message@),
    }
}

/// Of a book that is known only through an author's list: its id and that
/// author's id. It has no title, no year, and is not borrowed.
pub open spec fn livre_reference(id: u32, auteur_id: u32) -> LivreView {
    LivreView { id, titre: Seq::empty(), auteur_id, annee: 0, emprunte: false }
}

/// The books known through the list of one author, in the list's order.
pub open spec fn livres_de(auteur: AuteurView) -> Seq<LivreView> {
    auteur.livres.map_values(|id: u32| livre_reference(id, auteur.id))
}

/// The books known through the lists of `auteurs`: those of the first author,
/// then those of the second, and so on.
pub open spec fn livres_references(auteurs: Seq<AuteurView>) -> Seq<LivreView>
    decreases auteurs.len(),
{
    if auteurs.len() == 0 {
        Seq::empty()
    } else {
        livres_references(auteurs.drop_last()) + livres_de(auteurs.last())
    }
}

/// Some author of `auteurs` lists the book id `id`.
pub open spec fn est_reference(auteurs: Seq<AuteurView>, id: u32) -> bool {
    exists|i: int, k: int|
        0 <= i < auteurs.len() && 0 <= k < auteurs[i].livres.len() && #[trigger] auteurs[i].livres[k]
            == id
}

impl BibliothequeView {
    /// The store with the flag `emprunte` of the book at `rang` set to `emprunte`.
    pub open spec fn avec_emprunt(self, rang: int, emprunte: bool) -> BibliothequeView {
        BibliothequeView {
            livres: self.livres.update(rang, LivreView { emprunte, ..self.livres[rang] }),
            ..self
        }
    }

    /// The store with `livre_id` appended to the books of the author at `rang`.
    pub open spec fn avec_association(self, rang: int, livre_id: u32) -> BibliothequeView {
        BibliothequeView {
            auteurs: self.auteurs.update(
                rang,
                AuteurView {
                    livres: self.auteurs[rang].livres.push(livre_id),
                    ..self.auteurs[rang]
                },
            ),
            ..self
        }
    }

    /// Borrowing the book `id`: the store afterwards, and the outcome.
    pub open spec fn emprunter(self, id: u32) -> (BibliothequeView, Result<(), Seq<char>>) {
        match rang_livre(self.livres, id) {
            None => (self, Err(livre_non_trouve())),
            Some(rang) => if self.livres[rang].emprunte {
                (self, Err(deja_emprunte()))
            } else {
                (self.avec_emprunt(rang, true), Ok(()))
            },
        }
    }

    /// Returning the book `id`: the store afterwards, and the outcome.
    pub open spec fn retourner(self, id: u32) -> (BibliothequeView, Result<(), Seq<char>>) {
        match rang_livre(self.livres, id) {
            None => (self, Err(livre_non_trouve())),
            Some(rang) => if !self.livres[rang].emprunte {
                (self, Err(pas_emprunte()))
            } else {
                (self.avec_emprunt(rang, false), Ok(()))
            },
        }
    }

    /// Associating the book `livre_id` with the author `auteur_id`: the store
    /// afterwards, and the outcome.
    pub open spec fn associer(self, livre_id: u32, auteur_id: u32) -> (
        BibliothequeView,
        Result<(), Seq<char>>,
    ) {
        if !contient_livre(self.livres, livre_id) {
            (self, Err(livre_non_trouve()))
        } else {
            match rang_auteur(self.auteurs, auteur_id) {
                None => (self, Err(auteur_non_trouve())),
                Some(rang) => (self.avec_association(rang, livre_id), Ok(())),
            }
        }
    }

    /// The store that a saved list of authors gives back: the authors as they
    /// were saved, and the books known through their lists.
    pub open spec fn charger(auteurs: Seq<AuteurView>) -> BibliothequeView {
        BibliothequeView { livres: livres_references(auteurs), auteurs }
    }
}

/// A first book with the id `id` is unique, and is the one that `rang_livre` gives.
pub proof fn lemme_rang_livre(livres: Seq<LivreView>, id: u32, rang: int)
    requires
        premier_livre(livres, id, rang),
    ensures
        rang_livre(livres, id) == Some(rang),
{
    if let Some(autre) = rang_livre(livres, id) {
        assert(premier_livre(livres, id, autre));
    }
}

/// Where some book has the id `id`, `rang_livre` gives the position of the
/// first that has it.
pub proof fn lemme_premier_livre(livres: Seq<LivreView>, id: u32)
    requires
        contient_livre(livres, id),
    ensures
        rang_livre(livres, id) is Some,
        premier_livre(livres, id, rang_livre(livres, id).unwrap()),
{
    let i = choose|i: int| 0 <= i < livres.len() && (#[trigger] livres[i]).id == id;
    let ids = livres.map_values(|l: LivreView| l.id);
    lemme_premier_avant(ids, id, i);
    let rang = choose|r: int|
        0 <= r <= i && ids[r] == id && forall|j: int| 0 <= j < r ==> (#[trigger] ids[j]) != id;
    assert forall|j: int| 0 <= j < rang implies (#[trigger] livres[j]).id != id by {
        assert(ids[j] != id);
    }
    assert(premier_livre(livres, id, rang));
}

/// Where some author has the id `id`, `rang_auteur` gives the position of
/// the first that has it.
pub proof fn lemme_premier_auteur(auteurs: Seq<AuteurView>, id: u32)
    requires
        contient_auteur(auteurs, id),
    ensures
        rang_auteur(auteurs, id) is Some,
        premier_auteur(auteurs, id, rang_auteur(auteurs, id).unwrap()),
{
    let i = choose|i: int| 0 <= i < auteurs.len() && (#[trigger] auteurs[i]).id == id;
    let ids = auteurs.map_values(|a: AuteurView| a.id);
    lemme_premier_avant(ids, id, i);
    let rang = choose|r: int|
        0 <= r <= i && ids[r] == id && forall|j: int| 0 <= j < r ==> (#[trigger] ids[j]) != id;
    assert forall|j: int| 0 <= j < rang implies (#[trigger] auteurs[j]).id != id by {
        assert(ids[j] != id);
    }
    assert(premier_auteur(auteurs, id, rang));
}

/// An id that stands at the position `i` of `ids` has a first position, at
/// `i` or before.
proof fn lemme_premier_avant(ids: Seq<u32>, id: u32, i: int)
    requires
        0 <= i < ids.len(),
        ids[i] == id,
    ensures
        exists|r: int|
            0 <= r <= i && ids[r] == id && forall|j: int| 0 <= j < r ==> (#[trigger] ids[j]) != id,
    decreases i,
{
    if exists|j: int| 0 <= j < i && ids[j] == id {
        let j = choose|j: int| 0 <= j < i && ids[j] == id;
        lemme_premier_avant(ids, id, j);
    }
}

/// A first author with the id `id` is unique, and is the one that `rang_auteur` gives.
pub proof fn lemme_rang_auteur(auteurs: Seq<AuteurView>, id: u32, rang: int)
    requires
        premier_auteur(auteurs, id, rang),
    ensures
        rang_auteur(auteurs, id) == Some(rang),
{
    if let Some(autre) = rang_auteur(auteurs, id) {
        assert(premier_auteur(auteurs, id, autre));
    }
}

impl Bibliotheque {
    /// The empty store.
    pub fn new() -> (b: Self)
        ensures
            b@.livres == Seq::<LivreView>::empty(),
            b@.auteurs == Seq::<AuteurView>::empty(),
    {
        Bibliotheque { livres: Vec::new(), auteurs: Vec::new() }
    }

    /// Appends a book. Nothing is checked: an id may be held twice.
    pub fn ajouter_livre(&mut self, livre: Livre)
        ensures
            final(self)@.livres == old(self)@.livres.push(livre@),
            final(self)@.auteurs == old(self)@.auteurs,
    {
        self.livres.push(livre);
    }

    /// The books, in insertion order.
    pub fn lister_livres(&self) -> (livres: &Vec<Livre>)
        ensures
            vues_livres(livres@) == self@.livres,
    {
        &self.livres
    }

    /// Appends an author. Nothing is checked: an id may be held twice.
    pub fn ajouter_auteur(&mut self, auteur: Auteur)
        ensures
            final(self)@.auteurs == old(self)@.auteurs.push(auteur@),
            final(self)@.livres == old(self)@.livres,
    {
        self.auteurs.push(auteur);
    }

    /// The authors, in insertion order.
    pub fn lister_auteurs(&self) -> (auteurs: &Vec<Auteur>)
        ensures
            vues_auteurs(auteurs@) == self@.auteurs,
    {
        &self.auteurs
    }

    /// The position of the first book with the id `id`, if there is one.
    fn chercher_livre(&self, id: u32) -> (rang: Option<usize>)
        ensures
            match rang {
                Some(i) => rang_livre(self@.livres, id) == Some(i as int) && i < self.livres.len(),
                None => rang_livre(self@.livres, id) is None,
            },
    {
        let mut i: usize = 0;
        while i < self.livres.len()
            invariant
                i <= self.livres.len(),
                forall|j: int| 0 <= j < i ==> (#[trigger] self@.livres[j]).id != id,
            decreases self.livres.len() - i,
        {
            if self.livres[i].id == id {
                proof {
                    lemme_rang_livre(self@.livres, id, i as int);
                }
                return Some(i);
            }
            i += 1;
        }
        None
    }

    /// The position of the first author with the id `id`, if there is one.
    fn chercher_auteur(&self, id: u32) -> (rang: Option<usize>)
        ensures
            match rang {
                Some(i) => rang_auteur(self@.auteurs, id) == Some(i as int) && i
                    < self.auteurs.len(),
                None => rang_auteur(self@.auteurs, id) is None,
            },
    {
        let mut i: usize = 0;
        while i < self.auteurs.len()
            invariant
                i <= self.auteurs.len(),
                forall|j: int| 0 <= j < i ==> (#[trigger] self@.auteurs[j]).id != id,
            decreases self.auteurs.len() - i,
        {
            if self.auteurs[i].id == id {
                proof {
                    lemme_rang_auteur(self@.auteurs, id, i as int);
                }
                return Some(i);
            }
            i += 1;
        }
        None
    }

    /// The first book with the id `id`, if there is one.
    pub fn trouver_livre(&self, id: u32) -> (livre: Option<&Livre>)
        ensures
            match rang_livre(self@.livres, id) {
                Some(rang) => livre is Some && livre.unwrap()@ == self@.livres[rang],
                None => livre is None,
            },
    {
        match self.chercher_livre(id) {
            Some(i) => Some(&self.livres[i]),
            None => None,
        }
    }

    /// Marks as borrowed the first book with the id `id`. Fails, and changes
    /// nothing, when no book has that id or when that book is already out.
    pub fn emprunter_livre(&mut self, id: u32) -> (res: Result<(), String>)
        ensures
            (final(self)@, issue(res)) == old(self)@.emprunter(id),
    {
        match self.chercher_livre(id) {
            Some(i) => {
                if self.livres[i].emprunte {
                    Err("Ce livre est déjà emprunté".to_owned())
                } else {
                    self.livres[i].emprunte = true;
                    assert(self@.livres == old(self)@.avec_emprunt(i as int, true).livres);
                    Ok(())
                }
            },
            None => Err("Livre non trouvé".to_owned()),
        }
    }

    /// Marks as returned the first book with the id `id`. Fails, and changes
    /// nothing, when no book has that id or when that book is not out.
    pub fn retourner_livre(&mut self, id: u32) -> (res: Result<(), String>)
        ensures
            (final(self)@, issue(res)) == old(self)@.retourner(id),
    {
        match self.chercher_livre(id) {
            Some(i) => {
                if !self.livres[i].emprunte {
                    Err("Ce livre n'est pas emprunté".to_owned())
                } else {
                    self.livres[i].emprunte = false;
                    assert(self@.livres == old(self)@.avec_emprunt(i as int, false).livres);
                    Ok(())
                }
            },
            None => Err("Livre non trouvé".to_owned()),
        }
    }

    /// The first author with the id `id`, to be changed in place. What the
    /// caller leaves in it takes that author's place in the store.
    pub fn trouver_auteur_mut(&mut self, id: u32) -> (res: Option<&mut Auteur>)
        ensures
            final(self)@.livres == old(self)@.livres,
            match rang_auteur(old(self)@.auteurs, id) {
                None => res is None && final(self)@ == old(self)@,
                Some(rang) => {
                    &&& res is Some
                    &&& (*res.unwrap())@ == old(self)@.auteurs[rang]
                    &&& final(self)@.auteurs == old(self)@.auteurs.update(
                        rang,
                        (*final(res.unwrap()))@,
                    )
                },
            },
    {
        match self.chercher_auteur(id) {
            Some(i) => Some(&mut self.auteurs[i]),
            None => None,
        }
    }

    /// Appends `livre_id` to the books of the first author with the id
    /// `auteur_id`. Fails, and changes nothing, when no book has the id
    /// `livre_id`, and then when no author has the id `auteur_id`. The same
    /// book may be associated twice.
    pub fn associer_livre_auteur(&mut self, livre_id: u32, auteur_id: u32) -> (res: Result<
        (),
        String,
    >)
        ensures
            (final(self)@, issue(res)) == old(self)@.associer(livre_id, auteur_id),
    {
        if self.chercher_livre(livre_id).is_none() {
            return Err("Livre non trouvé".to_owned());
        }
        match self.trouver_auteur_mut(auteur_id) {
            Some(auteur) => {
                auteur.add_livre(livre_id);
                Ok(())
            },
            None => Err("Auteur non trouvé".to_owned()),
        }
    }

    /// What is saved of the store: its authors, each with the ids of its
    /// books. The books themselves are not part of it.
    pub fn sauvegarder(&self) -> (auteurs: Vec<Auteur>)
        ensures
            vues_auteurs(auteurs@) == self@.auteurs,
    {
        let mut auteurs: Vec<Auteur> = Vec::new();
        let mut i: usize = 0;
        while i < self.auteurs.len()
            invariant
                i <= self.auteurs.len(),
                vues_auteurs(auteurs@) == self@.auteurs.take(i as int),
            decreases self.auteurs.len() - i,
        {
            auteurs.push(self.auteurs[i].clone());
            assert(self@.auteurs.take(i + 1) =~= self@.auteurs.take(i as int).push(
                self@.auteurs[i as int],
            ));
            i += 1;
        }
        auteurs
    }

    /// The store that a saved list of authors gives back. The authors are
    /// those of the list. The books are those that the authors' lists name,
    /// in the order of the lists: a book that no author names is lost.
    pub fn charger(auteurs: Vec<Auteur>) -> (b: Self)
        ensures
            b@ == BibliothequeView::charger(vues_auteurs(auteurs@)),
    {
        let ghost vues = vues_auteurs(auteurs@);
        let mut livres: Vec<Livre> = Vec::new();
        let mut i: usize = 0;
        while i < auteurs.len()
            invariant
                i <= auteurs.len(),
                vues == vues_auteurs(auteurs@),
                vues_livres(livres@) == livres_references(vues.take(i as int)),
            decreases auteurs.len() - i,
        {
            let auteur = &auteurs[i];
            let mut k: usize = 0;
            while k < auteur.livres.len()
                invariant
                    k <= auteur.livres.len(),
                    vues_livres(livres@) == livres_references(vues.take(i as int)) + livres_de(
                        auteur@,
                    ).take(k as int),
                decreases auteur.livres.len() - k,
            {
                let ghost avant = livres@;
                livres.push(Livre::new(auteur.livres[k], String::new(), auteur.id, 0));
                assert(vues_livres(livres@) =~= vues_livres(avant).push(
                    livres_de(auteur@)[k as int],
                ));
                assert(livres_de(auteur@).take(k + 1) =~= livres_de(auteur@).take(k as int).push(
                    livres_de(auteur@)[k as int],
                ));
                k += 1;
            }
            proof {
                assert(vues.take(i + 1).drop_last() == vues.take(i as int));
            }
            i += 1;
        }
        proof {
            assert(vues.take(i as int) == vues);
        }
        Bibliotheque { livres, auteurs }
    }
}

} // verus!
