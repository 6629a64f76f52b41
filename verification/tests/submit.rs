use bibliotheque::app::state::MessageState;
use bibliotheque::app::submit::{
    submit_add_author, submit_add_book, submit_borrow, submit_borrow_id, submit_return,
    submit_return_id, Outcome,
};
use bibliotheque::models::{Auteur, Livre};
use bibliotheque::services::Bibliotheque;

fn strings(texts: &[&str]) -> Vec<String> {
    texts.iter().map(|t| t.to_string()).collect()
}

fn outcome(title: &str, message: &str, is_error: bool, close_form: bool) -> Outcome {
    Outcome {
        message: MessageState { title: title.to_string(), message: message.to_string(), is_error },
        close_form,
    }
}

#[test]
fn outcomes() {
    assert_eq!(Outcome::success("m".to_string()), outcome("Succès", "m", false, true));
    assert_eq!(Outcome::error("m".to_string()), outcome("Erreur", "m", true, false));
    assert_eq!(Outcome::warning("m".to_string()), outcome("Attention", "m", false, true));
}

#[test]
fn submitted_book_is_added_and_associated() {
    let mut b = Bibliotheque::new();
    b.ajouter_auteur(Auteur::new(9, "P".to_string(), "N".to_string()));
    assert_eq!(
        submit_add_book(&mut b, &strings(&["1", "A", "9", "2000"])),
        outcome("Succès", "Livre ajouté et associé avec succès!", false, true)
    );
    assert_eq!(b.lister_livres(), &vec![Livre::new(1, "A".to_string(), 9, 2000)]);
    assert_eq!(b.lister_auteurs()[0].livres, vec![1]);
    assert_eq!(
        submit_add_book(&mut b, &strings(&["2", "B", "8", "2001"])),
        outcome("Attention", "Livre ajouté mais: Auteur non trouvé", false, true)
    );
    assert_eq!(b.lister_livres().len(), 2);
    assert_eq!(
        submit_add_book(&mut b, &strings(&["3", "", "9", "2001"])),
        outcome("Erreur", "Le titre ne peut pas être vide!", true, false)
    );
    assert_eq!(b.lister_livres().len(), 2);
}

#[test]
fn submitted_author_is_added() {
    let mut b = Bibliotheque::new();
    assert_eq!(
        submit_add_author(&mut b, &strings(&["neuf", "Victor", "Hugo"])),
        outcome("Succès", "Auteur ajouté avec succès!", false, true)
    );
    assert_eq!(b.lister_auteurs(), &vec![Auteur::new(0, "Victor".to_string(), "Hugo".to_string())]);
    assert_eq!(
        submit_add_author(&mut b, &strings(&["1", "Victor", ""])),
        outcome("Erreur", "Le prénom et le nom ne peuvent pas être vides!", true, false)
    );
    assert_eq!(b.lister_auteurs().len(), 1);
}

#[test]
fn submitted_loans_and_returns() {
    let mut b = Bibliotheque::new();
    b.ajouter_livre(Livre::new(1, "A".to_string(), 9, 2000));
    assert_eq!(submit_borrow(&mut b, "un"), outcome("Erreur", "ID invalide", true, false));
    assert_eq!(submit_return(&mut b, " 1"), outcome("Erreur", "ID invalide", true, false));
    assert_eq!(
        submit_return(&mut b, "1"),
        outcome("Erreur", "Erreur: Ce livre n'est pas emprunté", true, false)
    );
    assert_eq!(
        submit_borrow(&mut b, "1"),
        outcome("Succès", "Livre emprunté avec succès!", false, true)
    );
    assert!(b.lister_livres()[0].emprunte);
    assert_eq!(
        submit_borrow_id(&mut b, 1),
        outcome("Erreur", "Erreur: Ce livre est déjà emprunté", true, false)
    );
    assert_eq!(
        submit_borrow_id(&mut b, 0),
        outcome("Erreur", "Erreur: Livre non trouvé", true, false)
    );
    assert_eq!(
        submit_return_id(&mut b, 1),
        outcome("Succès", "Livre retourné avec succès!", false, true)
    );
    assert!(!b.lister_livres()[0].emprunte);
    assert_eq!(
        submit_return_id(&mut b, 7),
        outcome("Erreur", "Erreur: Livre non trouvé", true, false)
    );
}
