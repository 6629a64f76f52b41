//! Text helpers for the forms: blank fields, numbers typed as text, and
//! messages made of several parts.

use vstd::prelude::*;
use vstd::string::StringExecFns;

verus! {

/// The text that `str::trim` gives for the text `s`: `s` without the white
/// space at its two ends.
pub uninterp spec fn trimmed(s: Seq<char>) -> Seq<char>;

/// `str::trim` returns a part of the text it is given: the text without its
/// leading and trailing white space, which this names `trimmed`. Being a part
/// of the text, it is not longer than the text.
pub assume_specification[ str::trim ](s: &str) -> (r: &str)
    ensures
        r@ == trimmed(s@),
        r@.len() <= s@.len(),
;

/// The text `s` is blank: it is empty, or nothing is left of it once trimmed.
pub open spec fn est_blanc(s: Seq<char>) -> bool {
    s.len() == 0 || trimmed(s).len() == 0
}

/// The character `c` is one of the ten decimal digits.
pub open spec fn est_chiffre(c: char) -> bool {
    '0' <= c && c <= '9'
}

/// The number that the decimal digits `chiffres` write.
pub open spec fn valeur_decimale(chiffres: Seq<char>) -> nat
    decreases chiffres.len(),
{
    if chiffres.len() == 0 {
        0
    } else {
        valeur_decimale(chiffres.drop_last()) * 10 + ((chiffres.last() as u32 - '0' as u32) as nat)
    }
}

/// Every character of `chiffres` is a decimal digit.
pub open spec fn tous_chiffres(chiffres: Seq<char>) -> bool {
    forall|i: int| 0 <= i < chiffres.len() ==> est_chiffre(#[trigger] chiffres[i])
}

/// The text `texte` without the `+` sign that it may start with.
pub open spec fn sans_signe(texte: Seq<char>) -> Seq<char> {
    if texte.len() > 0 && texte[0] == '+' {
        texte.drop_first()
    } else {
        texte
    }
}

/// The `u32` that the text `texte` writes in decimal: an optional `+`, then
/// one digit or more and nothing else, of a value that a `u32` holds.
pub open spec fn nombre_u32(texte: Seq<char>) -> Option<u32> {
    let chiffres = sans_signe(texte);
    if chiffres.len() > 0 && tous_chiffres(chiffres) && valeur_decimale(chiffres) <= u32::MAX {
        Some(valeur_decimale(chiffres) as u32)
    } else {
        None
    }
}

/// `str::parse::<u32>` reads a decimal number: an optional `+` sign followed
/// by digits only. Anything else, an empty text, or a value too large for a
/// `u32` is an error, which is `None` here.
#[verifier::external_body]
fn parse_u32(texte: &str) -> (res: Option<u32>)
    ensures
        res == nombre_u32(texte@),
{
    texte.parse::<u32>().ok()
}

/// The number that `texte` writes, or 0 where it writes none.
pub open spec fn valeur_ou_zero(texte: Seq<char>) -> u32 {
    match nombre_u32(texte) {
        Some(v) => v,
        None => 0,
    }
}

/// The number that `texte` writes, if it writes one.
pub fn lire_nombre(texte: &str) -> (n: Option<u32>)
    ensures
        n == nombre_u32(texte@),
{
    parse_u32(texte)
}

/// The number that `texte` writes, or 0 where it writes none.
pub fn nombre_ou_zero(texte: &str) -> (n: u32)
    ensures
        n == valeur_ou_zero(texte@),
{
    match parse_u32(texte) {
        Some(v) => v,
        None => 0,
    }
}

/// Whether `texte` is blank.
pub fn blanc(texte: &str) -> (b: bool)
    ensures
        b == est_blanc(texte@),
{
    texte.trim().is_empty()
}

/// The text `debut` followed by the text `suite`.
pub fn joindre(debut: &str, suite: &str) -> (res: String)
    ensures
        res@ == debut@ + suite@,
{
    debut.to_owned().concat(suite)
}

} // verus!
