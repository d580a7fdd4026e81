//! Currency codes from country names, demonyms and codes.

use vstd::prelude::*;
use vstd::string::*;
use crate::text::{
    lowercase_of, same_text, str_to_lowercase, str_to_uppercase, trim, trimmed, uppercase_of,
};

verus! {

/// The ISO 4217 code that a key in small letters stands for: a code, a
/// country's name or its demonym.
pub open spec fn currency_code(key: Seq<char>) -> Option<Seq<char>> {
    if key == "usd"@ || key == "united states"@ || key == "usa"@ || key == "us"@ || key == "america"@ || key == "american"@ {
        Some("USD"@)
    } else if key == "eur"@ || key == "euro"@ || key == "eurozone"@ || key == "european"@ {
        Some("EUR"@)
    } else if key == "gbp"@ || key == "united kingdom"@ || key == "uk"@ || key == "britain"@ || key == "british"@ || key == "england"@ || key == "english"@ {
        Some("GBP"@)
    } else if key == "jpy"@ || key == "japan"@ || key == "japanese"@ {
        Some("JPY"@)
    } else if key == "aud"@ || key == "australia"@ || key == "australian"@ {
        Some("AUD"@)
    } else if key == "cad"@ || key == "canada"@ || key == "canadian"@ {
        Some("CAD"@)
    } else if key == "chf"@ || key == "switzerland"@ || key == "swiss"@ {
        Some("CHF"@)
    } else if key == "nzd"@ || key == "new zealand"@ || key == "kiwi"@ {
        Some("NZD"@)
    } else if key == "cny"@ || key == "cnh"@ || key == "china"@ || key == "chinese"@ {
        Some("CNY"@)
    } else {
        None
    }
}

/// What an input resolves to: the code of its trimmed text in small
/// letters where the table knows it, the trimmed text in capitals
/// otherwise.
pub open spec fn resolved_currency(input: Seq<char>) -> Seq<char> {
    match currency_code(lowercase_of(trimmed(input))) {
        Some(code) => code,
        None => uppercase_of(trimmed(input)),
    }
}

/// Looks a key in small letters up in the table of codes, country names
/// and demonyms.
pub fn currency_for(key: &str) -> (r: Option<&'static str>)
    ensures
        r is Some <==> currency_code(key@) is Some,
        r matches Some(code) ==> currency_code(key@) == Some(code@),
{
    if same_text(key, "usd") || same_text(key, "united states") || same_text(key, "usa") || same_text(key, "us") || same_text(key, "america") || same_text(key, "american") {
        Some("USD")
    } else if same_text(key, "eur") || same_text(key, "euro") || same_text(key, "eurozone") || same_text(key, "european") {
        Some("EUR")
    } else if same_text(key, "gbp") || same_text(key, "united kingdom") || same_text(key, "uk") || same_text(key, "britain") || same_text(key, "british") || same_text(key, "england") || same_text(key, "english") {
        Some("GBP")
    } else if same_text(key, "jpy") || same_text(key, "japan") || same_text(key, "japanese") {
        Some("JPY")
    } else if same_text(key, "aud") || same_text(key, "australia") || same_text(key, "australian") {
        Some("AUD")
    } else if same_text(key, "cad") || same_text(key, "canada") || same_text(key, "canadian") {
        Some("CAD")
    } else if same_text(key, "chf") || same_text(key, "switzerland") || same_text(key, "swiss") {
        Some("CHF")
    } else if same_text(key, "nzd") || same_text(key, "new zealand") || same_text(key, "kiwi") {
        Some("NZD")
    } else if same_text(key, "cny") || same_text(key, "cnh") || same_text(key, "china") || same_text(key, "chinese") {
        Some("CNY")
    } else {
        None
    }
}

/// Resolves a currency input to its ISO 4217 code: "USD", "usd",
/// "Canada" and "Canadian" all resolve to a code; an input that the table
/// does not know comes back trimmed and in capitals.
pub fn resolve_currency(input: &str) -> (r: String)
    ensures
        r@ == resolved_currency(input@),
{
    let normalized = str_to_lowercase(trim(input));
    match currency_for(normalized.as_str()) {
        Some(code) => String::from_str(code),
        None => str_to_uppercase(trim(input)),
    }
}

} // verus!
