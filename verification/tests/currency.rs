use forex_calendar::currency::currency_for;
use forex_calendar::resolve_currency;

#[test]
fn test_currency_codes_pass_through() {
    assert_eq!(resolve_currency("USD"), "USD");
    assert_eq!(resolve_currency("usd"), "USD");
    assert_eq!(resolve_currency("cad"), "CAD");
    assert_eq!(resolve_currency("EUR"), "EUR");
}

#[test]
fn test_country_names_resolve() {
    assert_eq!(resolve_currency("Canada"), "CAD");
    assert_eq!(resolve_currency("CANADA"), "CAD");
    assert_eq!(resolve_currency("canada"), "CAD");
    assert_eq!(resolve_currency("United States"), "USD");
    assert_eq!(resolve_currency("Japan"), "JPY");
    assert_eq!(resolve_currency("Australia"), "AUD");
}

#[test]
fn test_demonyms_resolve() {
    assert_eq!(resolve_currency("Canadian"), "CAD");
    assert_eq!(resolve_currency("American"), "USD");
    assert_eq!(resolve_currency("Japanese"), "JPY");
}

#[test]
fn test_unknown_input_uppercased() {
    assert_eq!(resolve_currency("xyz"), "XYZ");
    assert_eq!(resolve_currency("Unknown"), "UNKNOWN");
}

#[test]
fn test_whitespace_handling() {
    assert_eq!(resolve_currency("  USD  "), "USD");
    assert_eq!(resolve_currency("  canada  "), "CAD");
}

#[test]
fn every_table_entry_resolves() {
    let table = [
        ("usd", "USD"),
        ("united states", "USD"),
        ("usa", "USD"),
        ("us", "USD"),
        ("america", "USD"),
        ("american", "USD"),
        ("eur", "EUR"),
        ("euro", "EUR"),
        ("eurozone", "EUR"),
        ("european", "EUR"),
        ("gbp", "GBP"),
        ("united kingdom", "GBP"),
        ("uk", "GBP"),
        ("britain", "GBP"),
        ("british", "GBP"),
        ("england", "GBP"),
        ("english", "GBP"),
        ("jpy", "JPY"),
        ("japan", "JPY"),
        ("japanese", "JPY"),
        ("aud", "AUD"),
        ("australia", "AUD"),
        ("australian", "AUD"),
        ("cad", "CAD"),
        ("canada", "CAD"),
        ("canadian", "CAD"),
        ("chf", "CHF"),
        ("switzerland", "CHF"),
        ("swiss", "CHF"),
        ("nzd", "NZD"),
        ("new zealand", "NZD"),
        ("kiwi", "NZD"),
        ("cny", "CNY"),
        ("cnh", "CNY"),
        ("china", "CNY"),
        ("chinese", "CNY"),
    ];
    for (key, code) in table {
        assert_eq!(currency_for(key), Some(code));
        assert_eq!(resolve_currency(key), code);
    }
    assert_eq!(currency_for("USD"), None);
    assert_eq!(currency_for(""), None);
}

#[test]
fn unknown_input_keeps_inner_spaces() {
    assert_eq!(resolve_currency("  south pole "), "SOUTH POLE");
    assert_eq!(resolve_currency(""), "");
}
