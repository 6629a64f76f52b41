//! What holds of the store's operations, whatever the store.

use crate::models::auteur::AuteurView;
use crate::models::livre::LivreView;
use crate::services::bibliotheque::{
    auteur_non_trouve, contient_auteur, contient_livre, deja_emprunte, est_reference,
    lemme_premier_auteur, lemme_premier_livre, lemme_rang_auteur, lemme_rang_livre,
    livre_non_trouve, livres_de, livres_references, pas_emprunte, premier_auteur, premier_livre,
    rang_auteur, rang_livre, BibliothequeView,
};
use vstd::prelude::*;

verus! {

/// Borrowing a book that is in, twice in a row: the first loan succeeds, the
/// second fails because the book is already out and changes nothing, and the
/// book is out after each of them.
pub proof fn emprunter_deux_fois(b: BibliothequeView, id: u32)
    requires
        contient_livre(b.livres, id),
        !b.livres[rang_livre(b.livres, id).unwrap()].emprunte,
    ensures
        ({
            let rang = rang_livre(b.livres, id).unwrap();
            let (b1, r1) = b.emprunter(id);
            let (b2, r2) = b1.emprunter(id);
            &&& r1 is Ok
            &&& b1.livres[rang].emprunte
            &&& r2 == Err::<(), Seq<char>>(deja_emprunte())
            &&& b2 == b1
            &&& b2.livres[rang].emprunte
        }),
{
    lemme_premier_livre(b.livres, id);
    let rang = rang_livre(b.livres, id).unwrap();
    let b1 = b.emprunter(id).0;
    assert(premier_livre(b1.livres, id, rang));
    lemme_rang_livre(b1.livres, id, rang);
}

/// Returning a book: one that is in cannot be returned, and the store stays
/// as it is; one that is out is returned, and is in afterwards, while every
/// other book and every author stays as it is.
pub proof fn retourner_selon_etat(b: BibliothequeView, id: u32)
    requires
        contient_livre(b.livres, id),
    ensures
        ({
            let rang = rang_livre(b.livres, id).unwrap();
            let (apres, res) = b.retourner(id);
            &&& 0 <= rang < b.livres.len()
            &&& !b.livres[rang].emprunte ==> res == Err::<(), Seq<char>>(pas_emprunte()) && apres
                == b
            &&& b.livres[rang].emprunte ==> {
                &&& res is Ok
                &&& !apres.livres[rang].emprunte
                &&& apres.livres.len() == b.livres.len()
                &&& forall|j: int|
                    0 <= j < b.livres.len() && j != rang ==> #[trigger] apres.livres[j]
                        == b.livres[j]
                &&& apres.auteurs == b.auteurs
            }
        }),
{
    lemme_premier_livre(b.livres, id);
}

/// Borrowing and then returning a book that is in gives the store back as
/// it was.
pub proof fn emprunter_puis_retourner(b: BibliothequeView, id: u32)
    requires
        contient_livre(b.livres, id),
        !b.livres[rang_livre(b.livres, id).unwrap()].emprunte,
    ensures
        b.emprunter(id).0.retourner(id) == (b, Ok::<(), Seq<char>>(())),
{
    lemme_premier_livre(b.livres, id);
    let rang = rang_livre(b.livres, id).unwrap();
    let b1 = b.emprunter(id).0;
    assert(premier_livre(b1.livres, id, rang));
    lemme_rang_livre(b1.livres, id, rang);
    assert(b1.avec_emprunt(rang, false).livres =~= b.livres);
}

/// Returning a book that the store does not hold fails, and changes nothing;
/// so does borrowing it.
pub proof fn livre_absent(b: BibliothequeView, id: u32)
    requires
        !contient_livre(b.livres, id),
    ensures
        b.emprunter(id) == (b, Err::<(), Seq<char>>(livre_non_trouve())),
        b.retourner(id) == (b, Err::<(), Seq<char>>(livre_non_trouve())),
{
}

/// Associating a book with an author that the store does not hold fails as
/// not found, and leaves the authors, and the whole store, as they are.
pub proof fn associer_auteur_absent(b: BibliothequeView, livre_id: u32, auteur_id: u32)
    requires
        !contient_auteur(b.auteurs, auteur_id),
    ensures
        ({
            let (apres, res) = b.associer(livre_id, auteur_id);
            &&& apres == b
            &&& apres.auteurs == b.auteurs
            &&& res == Err::<(), Seq<char>>(
                if contient_livre(b.livres, livre_id) {
                    auteur_non_trouve()
                } else {
                    livre_non_trouve()
                },
            )
        }),
{
}

/// Associating a book that the store holds with an author that it holds
/// succeeds: the book's id joins the end of the list of the first author
/// with that id, and nothing else changes.
pub proof fn associer_ajoute_a_la_liste(b: BibliothequeView, livre_id: u32, auteur_id: u32)
    requires
        contient_livre(b.livres, livre_id),
        contient_auteur(b.auteurs, auteur_id),
    ensures
        ({
            let rang = rang_auteur(b.auteurs, auteur_id).unwrap();
            let (apres, res) = b.associer(livre_id, auteur_id);
            &&& res is Ok
            &&& 0 <= rang < b.auteurs.len()
            &&& b.auteurs[rang].id == auteur_id
            &&& apres.auteurs.len() == b.auteurs.len()
            &&& apres.auteurs[rang].livres == b.auteurs[rang].livres.push(livre_id)
            &&& apres.auteurs[rang].id == auteur_id
            &&& apres.auteurs[rang].prenom == b.auteurs[rang].prenom
            &&& apres.auteurs[rang].nom == b.auteurs[rang].nom
            &&& forall|j: int|
                0 <= j < b.auteurs.len() && j != rang ==> #[trigger] apres.auteurs[j]
                    == b.auteurs[j]
            &&& apres.livres == b.livres
        }),
{
    lemme_premier_auteur(b.auteurs, auteur_id);
}

/// A store with one book and its author, made from the empty store: once
/// the two are associated, the author lists the book, and only it.
pub proof fn premier_livre_du_premier_auteur(livre: LivreView, auteur: AuteurView)
    requires
        livre.auteur_id == auteur.id,
        auteur.livres.len() == 0,
    ensures
        ({
            let b = BibliothequeView { livres: seq![livre], auteurs: seq![auteur] };
            let (apres, res) = b.associer(livre.id, auteur.id);
            res is Ok && apres.auteurs[0].livres == seq![livre.id]
        }),
{
    let b = BibliothequeView { livres: seq![livre], auteurs: seq![auteur] };
    assert(b.livres[0].id == livre.id);
    lemme_rang_auteur(b.auteurs, auteur.id, 0);
}

/// The books known through a list of authors are those of the authors but
/// the last, followed by those of the last: so an id is among them exactly
/// when some author lists it.
pub proof fn lemme_livres_references(auteurs: Seq<AuteurView>, id: u32)
    ensures
        contient_livre(livres_references(auteurs), id) <==> est_reference(auteurs, id),
    decreases auteurs.len(),
{
    if auteurs.len() > 0 {
        let debut = auteurs.drop_last();
        let n = auteurs.len() - 1;
        let gauche = livres_references(debut);
        let droite = livres_de(auteurs.last());
        let tous = livres_references(auteurs);
        lemme_livres_references(debut, id);
        if contient_livre(tous, id) {
            let i = choose|i: int| 0 <= i < tous.len() && (#[trigger] tous[i]).id == id;
            if i < gauche.len() {
                // the book comes from an author before the last
                assert(gauche[i].id == id);
                let (a, k) = choose|a: int, k: int|
                    0 <= a < debut.len() && 0 <= k < debut[a].livres.len()
                        && #[trigger] debut[a].livres[k] == id;
                assert(auteurs[a].livres[k] == id);
            } else {
                // the book comes from the last author
                let k = i - gauche.len();
                assert(droite[k].id == id);
                assert(auteurs[n].livres[k] == id);
            }
        }
        if est_reference(auteurs, id) {
            let (a, k) = choose|a: int, k: int|
                0 <= a < auteurs.len() && 0 <= k < auteurs[a].livres.len()
                    && #[trigger] auteurs[a].livres[k] == id;
            if a < n {
                assert(debut[a].livres[k] == id);
                let i = choose|i: int| 0 <= i < gauche.len() && (#[trigger] gauche[i]).id == id;
                assert(tous[i].id == id);
            } else {
                assert(droite[k].id == id);
                assert(tous[gauche.len() + k].id == id);
            }
        }
    }
}

/// Saving a store and loading what was saved: every author comes back as it
/// was, with its list of books in the same order. A book comes back exactly
/// when some author lists its id: a book that no author lists is lost, and
/// of one that is listed only the id and the listing author come back.
pub proof fn aller_retour(b: BibliothequeView)
    ensures
        ({
            let apres = BibliothequeView::charger(b.auteurs);
            &&& apres.auteurs == b.auteurs
            &&& forall|id: u32| #[trigger]
                contient_livre(apres.livres, id) <==> est_reference(b.auteurs, id)
            &&& forall|i: int|
                0 <= i < b.livres.len() && !est_reference(b.auteurs, (#[trigger] b.livres[i]).id)
                    ==> !contient_livre(apres.livres, b.livres[i].id)
        }),
{
    let apres = BibliothequeView::charger(b.auteurs);
    assert forall|id: u32| #[trigger]
        contient_livre(apres.livres, id) <==> est_reference(b.auteurs, id) by {
        lemme_livres_references(b.auteurs, id);
    }
}

} // verus!
