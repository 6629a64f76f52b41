use bibliotheque::models::{Auteur, Livre};
use bibliotheque::services::Bibliotheque;

fn livre(id: u32, titre: &str, auteur_id: u32, annee: u32) -> Livre {
    Livre::new(id, titre.to_string(), auteur_id, annee)
}

fn auteur(id: u32, prenom: &str, nom: &str) -> Auteur {
    Auteur::new(id, prenom.to_string(), nom.to_string())
}

#[test]
fn new_store_is_empty() {
    let b = Bibliotheque::new();
    assert!(b.lister_livres().is_empty());
    assert!(b.lister_auteurs().is_empty());
}

#[test]
fn new_book_is_not_borrowed() {
    let l = livre(7, "Germinal", 3, 1885);
    assert_eq!(l.id, 7);
    assert_eq!(l.titre, "Germinal");
    assert_eq!(l.auteur_id, 3);
    assert_eq!(l.annee, 1885);
    assert!(!l.emprunte);
    assert_eq!(l.clone(), l);
}

#[test]
fn new_author_has_no_book() {
    let mut a = auteur(3, "Emile", "Zola");
    assert_eq!(a.id, 3);
    assert_eq!(a.prenom, "Emile");
    assert_eq!(a.nom, "Zola");
    assert!(a.livres.is_empty());
    a.add_livre(7);
    a.add_livre(7);
    assert_eq!(a.livres, vec![7, 7]);
    assert_eq!(a.clone(), a);
}

#[test]
fn books_and_authors_are_listed_in_insertion_order() {
    let mut b = Bibliotheque::new();
    b.ajouter_livre(livre(2, "B", 1, 2001));
    b.ajouter_livre(livre(1, "A", 1, 2000));
    b.ajouter_livre(livre(2, "B bis", 1, 2002));
    b.ajouter_auteur(auteur(5, "X", "Y"));
    b.ajouter_auteur(auteur(4, "Z", "T"));
    let ids: Vec<u32> = b.lister_livres().iter().map(|l| l.id).collect();
    assert_eq!(ids, vec![2, 1, 2]);
    let ids: Vec<u32> = b.lister_auteurs().iter().map(|a| a.id).collect();
    assert_eq!(ids, vec![5, 4]);
}

#[test]
fn borrow_twice_fails_the_second_time() {
    let mut b = Bibliotheque::new();
    b.ajouter_livre(livre(1, "A", 9, 2000));
    assert_eq!(b.emprunter_livre(1), Ok(()));
    assert!(b.lister_livres()[0].emprunte);
    assert_eq!(b.emprunter_livre(1), Err("Ce livre est déjà emprunté".to_string()));
    assert!(b.lister_livres()[0].emprunte);
}

#[test]
fn borrow_unknown_book_is_not_found() {
    let mut b = Bibliotheque::new();
    b.ajouter_livre(livre(1, "A", 9, 2000));
    assert_eq!(b.emprunter_livre(2), Err("Livre non trouvé".to_string()));
    assert!(!b.lister_livres()[0].emprunte);
}

#[test]
fn borrow_takes_the_first_book_with_the_id() {
    let mut b = Bibliotheque::new();
    b.ajouter_livre(livre(4, "premier", 9, 2000));
    b.ajouter_livre(livre(4, "second", 9, 2000));
    assert_eq!(b.emprunter_livre(4), Ok(()));
    assert!(b.lister_livres()[0].emprunte);
    assert!(!b.lister_livres()[1].emprunte);
    assert_eq!(b.emprunter_livre(4), Err("Ce livre est déjà emprunté".to_string()));
    assert!(!b.lister_livres()[1].emprunte);
}

#[test]
fn return_never_borrowed_book_fails() {
    let mut b = Bibliotheque::new();
    b.ajouter_livre(livre(1, "A", 9, 2000));
    assert_eq!(b.retourner_livre(1), Err("Ce livre n'est pas emprunté".to_string()));
    assert!(!b.lister_livres()[0].emprunte);
}

#[test]
fn return_borrowed_book_succeeds() {
    let mut b = Bibliotheque::new();
    b.ajouter_livre(livre(1, "A", 9, 2000));
    assert_eq!(b.emprunter_livre(1), Ok(()));
    assert_eq!(b.retourner_livre(1), Ok(()));
    assert!(!b.lister_livres()[0].emprunte);
    assert_eq!(b.lister_livres()[0].titre, "A");
}

#[test]
fn return_unknown_book_is_not_found() {
    let mut b = Bibliotheque::new();
    assert_eq!(b.retourner_livre(1), Err("Livre non trouvé".to_string()));
}

#[test]
fn associate_with_unknown_author_changes_nothing() {
    let mut b = Bibliotheque::new();
    b.ajouter_livre(livre(1, "A", 9, 2000));
    b.ajouter_auteur(auteur(8, "P", "N"));
    assert_eq!(b.associer_livre_auteur(1, 9), Err("Auteur non trouvé".to_string()));
    assert_eq!(b.lister_auteurs().len(), 1);
    assert_eq!(b.lister_auteurs()[0], auteur(8, "P", "N"));
}

#[test]
fn associate_unknown_book_is_not_found() {
    let mut b = Bibliotheque::new();
    b.ajouter_auteur(auteur(9, "P", "N"));
    assert_eq!(b.associer_livre_auteur(1, 9), Err("Livre non trouvé".to_string()));
    assert!(b.lister_auteurs()[0].livres.is_empty());
    assert_eq!(b.associer_livre_auteur(1, 7), Err("Livre non trouvé".to_string()));
}

#[test]
fn associate_appends_the_book_id() {
    let mut b = Bibliotheque::new();
    b.ajouter_livre(livre(1, "A", 9, 2000));
    b.ajouter_auteur(auteur(9, "P", "N"));
    assert_eq!(b.associer_livre_auteur(1, 9), Ok(()));
    assert_eq!(b.lister_auteurs()[0].livres, vec![1]);
}

#[test]
fn associate_twice_appends_twice() {
    let mut b = Bibliotheque::new();
    b.ajouter_livre(livre(1, "A", 9, 2000));
    b.ajouter_livre(livre(2, "B", 9, 2000));
    b.ajouter_auteur(auteur(9, "P", "N"));
    b.ajouter_auteur(auteur(9, "autre", "N"));
    assert_eq!(b.associer_livre_auteur(1, 9), Ok(()));
    assert_eq!(b.associer_livre_auteur(2, 9), Ok(()));
    assert_eq!(b.associer_livre_auteur(1, 9), Ok(()));
    assert_eq!(b.lister_auteurs()[0].livres, vec![1, 2, 1]);
    assert!(b.lister_auteurs()[1].livres.is_empty());
}

#[test]
fn find_author_gives_the_first_with_the_id() {
    let mut b = Bibliotheque::new();
    b.ajouter_auteur(auteur(1, "a", "A"));
    b.ajouter_auteur(auteur(2, "b", "B"));
    b.ajouter_auteur(auteur(2, "c", "C"));
    assert!(b.trouver_auteur_mut(3).is_none());
    {
        let a = b.trouver_auteur_mut(2).unwrap();
        assert_eq!(a.prenom, "b");
        a.nom = "changé".to_string();
        a.add_livre(12);
    }
    assert_eq!(b.lister_auteurs()[1].nom, "changé");
    assert_eq!(b.lister_auteurs()[1].livres, vec![12]);
    assert_eq!(b.lister_auteurs()[2].nom, "C");
    assert_eq!(b.lister_auteurs()[0].nom, "A");
}

#[test]
fn saved_authors_are_the_authors() {
    let mut b = Bibliotheque::new();
    b.ajouter_livre(livre(1, "A", 9, 2000));
    b.ajouter_auteur(auteur(9, "P", "N"));
    b.ajouter_auteur(auteur(3, "Q", "M"));
    assert_eq!(b.associer_livre_auteur(1, 9), Ok(()));
    let saved = b.sauvegarder();
    assert_eq!(&saved, b.lister_auteurs());
    assert_eq!(saved[0].livres, vec![1]);
}

#[test]
fn round_trip_keeps_authors_and_drops_unlisted_books() {
    let mut b = Bibliotheque::new();
    b.ajouter_livre(livre(1, "A", 9, 2000));
    b.ajouter_livre(livre(2, "B", 9, 2001));
    b.ajouter_livre(livre(3, "C", 4, 2002));
    b.ajouter_auteur(auteur(9, "P", "N"));
    b.ajouter_auteur(auteur(4, "Q", "M"));
    assert_eq!(b.associer_livre_auteur(2, 9), Ok(()));
    assert_eq!(b.associer_livre_auteur(3, 4), Ok(()));
    assert_eq!(b.associer_livre_auteur(2, 4), Ok(()));
    assert_eq!(b.emprunter_livre(2), Ok(()));

    let loaded = Bibliotheque::charger(b.sauvegarder());

    assert_eq!(loaded.lister_auteurs(), b.lister_auteurs());
    assert_eq!(loaded.lister_auteurs()[0].livres, vec![2]);
    assert_eq!(loaded.lister_auteurs()[1].livres, vec![3, 2]);

    let ids: Vec<u32> = loaded.lister_livres().iter().map(|l| l.id).collect();
    assert_eq!(ids, vec![2, 3, 2]);
    assert!(loaded.lister_livres().iter().all(|l| l.id != 1));
    let first = &loaded.lister_livres()[0];
    assert_eq!(first.auteur_id, 9);
    assert_eq!(first.titre, "");
    assert_eq!(first.annee, 0);
    assert!(!first.emprunte);
    assert_eq!(loaded.lister_livres()[2].auteur_id, 4);
}

#[test]
fn load_of_no_author_is_the_empty_store() {
    let loaded = Bibliotheque::charger(Vec::new());
    assert!(loaded.lister_auteurs().is_empty());
    assert!(loaded.lister_livres().is_empty());
}

#[test]
fn scenario_add_book_add_author_associate() {
    let mut b = Bibliotheque::new();
    b.ajouter_livre(livre(1, "A", 9, 2000));
    b.ajouter_auteur(auteur(9, "P", "N"));
    assert_eq!(b.associer_livre_auteur(1, 9), Ok(()));
    let a = b.lister_auteurs().iter().find(|a| a.id == 9).unwrap();
    assert_eq!(a.livres, vec![1]);
}

#[test]
fn find_book_gives_the_first_with_the_id() {
    let mut b = Bibliotheque::new();
    b.ajouter_livre(livre(4, "premier", 9, 2000));
    b.ajouter_livre(livre(5, "autre", 9, 2001));
    b.ajouter_livre(livre(4, "second", 9, 2002));
    assert_eq!(b.trouver_livre(4).map(|l| l.titre.as_str()), Some("premier"));
    assert_eq!(b.trouver_livre(5).map(|l| l.annee), Some(2001));
    assert!(b.trouver_livre(6).is_none());
}

#[test]
fn borrow_then_return_restores_the_store() {
    let mut b = Bibliotheque::new();
    b.ajouter_livre(livre(1, "A", 9, 2000));
    b.ajouter_livre(livre(2, "B", 9, 2001));
    assert_eq!(b.emprunter_livre(2), Ok(()));
    assert_eq!(b.retourner_livre(2), Ok(()));
    assert_eq!(b.lister_livres(), &vec![livre(1, "A", 9, 2000), livre(2, "B", 9, 2001)]);
}
