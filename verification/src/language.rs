//! The full-text language resolver.

use vstd::prelude::*;

use crate::errors::Error;

verus! {

/// The closed set of languages a full-text index's stemmer and stop-word
/// filter can be configured for.
#[derive(Clone, Copy, Debug, PartialEq, Eq)]
pub enum Language {
    Arabic,
    Danish,
    Dutch,
    English,
    Finnish,
    French,
    German,
    Greek,
    Hungarian,
    Italian,
    Norwegian,
    Portuguese,
    Romanian,
    Russian,
    Spanish,
    Swedish,
    Tamil,
    Turkish,
}

/// The language named by `s`, if any.
///
/// Matching is case-sensitive, the same policy as for distance metrics:
/// the recognized names are exactly the lower-case English names of the
/// supported languages (`"arabic"`, ..., `"turkish"`).
pub open spec fn language_of(s: Seq<char>) -> Option<Language> {
    if s == "arabic"@ {
        Some(Language::Arabic)
    } else if s == "danish"@ {
        Some(Language::Danish)
    } else if s == "dutch"@ {
        Some(Language::Dutch)
    } else if s == "english"@ {
        Some(Language::English)
    } else if s == "finnish"@ {
        Some(Language::Finnish)
    } else if s == "french"@ {
        Some(Language::French)
    } else if s == "german"@ {
        Some(Language::German)
    } else if s == "greek"@ {
        Some(Language::Greek)
    } else if s == "hungarian"@ {
        Some(Language::Hungarian)
    } else if s == "italian"@ {
        Some(Language::Italian)
    } else if s == "norwegian"@ {
        Some(Language::Norwegian)
    } else if s == "portuguese"@ {
        Some(Language::Portuguese)
    } else if s == "romanian"@ {
        Some(Language::Romanian)
    } else if s == "russian"@ {
        Some(Language::Russian)
    } else if s == "spanish"@ {
        Some(Language::Spanish)
    } else if s == "swedish"@ {
        Some(Language::Swedish)
    } else if s == "tamil"@ {
        Some(Language::Tamil)
    } else if s == "turkish"@ {
        Some(Language::Turkish)
    } else {
        None
    }
}

/// Parse a user-supplied language name into the closed enumeration.
///
/// Returns the matching language for each recognized name and fails for
/// every other string, carrying the offending name verbatim.
pub fn resolve_language(name: &str) -> (r: Result<Language, Error>)
    ensures
        match language_of(name@) {
            Some(l) => r == Ok::<Language, Error>(l),
            None => (r matches Err(e) && e matches Error::InvalidLanguage { name: n }
                && n@ == name@),
        },
{
    let owned = name.to_owned();
    if owned == String::from_str("arabic") {
        Ok(Language::Arabic)
    } else if owned == String::from_str("danish") {
        Ok(Language::Danish)
    } else if owned == String::from_str("dutch") {
        Ok(Language::Dutch)
    } else if owned == String::from_str("english") {
        Ok(Language::English)
    } else if owned == String::from_str("finnish") {
        Ok(Language::Finnish)
    } else if owned == String::from_str("french") {
        Ok(Language::French)
    } else if owned == String::from_str("german") {
        Ok(Language::German)
    } else if owned == String::from_str("greek") {
        Ok(Language::Greek)
    } else if owned == String::from_str("hungarian") {
        Ok(Language::Hungarian)
    } else if owned == String::from_str("italian") {
        Ok(Language::Italian)
    } else if owned == String::from_str("norwegian") {
        Ok(Language::Norwegian)
    } else if owned == String::from_str("portuguese") {
        Ok(Language::Portuguese)
    } else if owned == String::from_str("romanian") {
        Ok(Language::Romanian)
    } else if owned == String::from_str("russian") {
        Ok(Language::Russian)
    } else if owned == String::from_str("spanish") {
        Ok(Language::Spanish)
    } else if owned == String::from_str("swedish") {
        Ok(Language::Swedish)
    } else if owned == String::from_str("tamil") {
        Ok(Language::Tamil)
    } else if owned == String::from_str("turkish") {
        Ok(Language::Turkish)
    } else {
        Err(Error::InvalidLanguage { name: owned })
    }
}

} // verus!
