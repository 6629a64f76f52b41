use bibliotheque::texte::{blanc, joindre, lire_nombre, nombre_ou_zero};

#[test]
fn blank_texts() {
    assert!(blanc(""));
    assert!(blanc("   "));
    assert!(blanc("\t\n "));
    assert!(!blanc(" a "));
    assert!(!blanc("0"));
}

#[test]
fn numbers_are_read_in_decimal() {
    assert_eq!(lire_nombre("0"), Some(0));
    assert_eq!(lire_nombre("9"), Some(9));
    assert_eq!(lire_nombre("2020"), Some(2020));
    assert_eq!(lire_nombre("007"), Some(7));
    assert_eq!(lire_nombre("+5"), Some(5));
    assert_eq!(lire_nombre("4294967295"), Some(4294967295));
}

#[test]
fn what_is_no_number_is_refused() {
    assert_eq!(lire_nombre(""), None);
    assert_eq!(lire_nombre("+"), None);
    assert_eq!(lire_nombre("-5"), None);
    assert_eq!(lire_nombre(" 5"), None);
    assert_eq!(lire_nombre("5 "), None);
    assert_eq!(lire_nombre("1_000"), None);
    assert_eq!(lire_nombre("12a"), None);
    assert_eq!(lire_nombre("++5"), None);
    assert_eq!(lire_nombre("4294967296"), None);
}

#[test]
fn number_or_zero() {
    assert_eq!(nombre_ou_zero("42"), 42);
    assert_eq!(nombre_ou_zero("abc"), 0);
    assert_eq!(nombre_ou_zero(""), 0);
}

#[test]
fn joined_texts() {
    assert_eq!(joindre("Erreur: ", "Livre non trouvé"), "Erreur: Livre non trouvé");
    assert_eq!(joindre("", ""), "");
}
