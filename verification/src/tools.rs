//! The parameters that a caller hands in as text, and the form in which
//! events are handed back.

use vstd::prelude::*;
use vstd::string::*;
use crate::date::{iso_date, Date};
use crate::event::EconomicEvent;
use crate::impact::Impact;
use crate::query::EventQuery;
use crate::text::{
    codes, lowercase_of, same_text, split_codes, str_to_lowercase, strings_of, trim, trimmed,
    uppercase_of,
};

verus! {

/// Parameters for querying economic events.
#[derive(Debug, Clone)]
pub struct QueryEventsParams {
    /// Currency pair or single currency, such as "AUD/CHF", "USD" or
    /// "EUR,GBP".
    pub currencies: Option<String>,
    /// Start date, as YYYY-MM-DD.
    pub from_date: Option<String>,
    /// End date, as YYYY-MM-DD.
    pub to_date: Option<String>,
    /// Minimum impact level: "low", "medium", "high" or 1 to 3.
    pub min_impact: Option<String>,
}

/// Parameters for getting the events around a date.
#[derive(Debug, Clone)]
pub struct WeekAroundParams {
    /// Centre date, as YYYY-MM-DD.
    pub date: String,
    /// Currency pair or single currency.
    pub currencies: Option<String>,
    /// Minimum impact level.
    pub min_impact: Option<String>,
}

/// An event as it is handed back to the caller.
#[derive(Debug, Clone, PartialEq)]
pub struct EventResult {
    /// Event name.
    pub name: String,
    /// Currency code, such as "USD".
    pub currency: String,
    /// Impact level: "low", "medium" or "high".
    pub impact: String,
    /// Date and time as RFC 3339 text.
    pub datetime: String,
    /// Actual value, once released.
    pub actual: Option<String>,
    /// Forecast value.
    pub forecast: Option<String>,
    /// The previous period's value.
    pub previous: Option<String>,
}

/// The characters that separate the currencies of a list.
pub open spec fn list_delimiters() -> Seq<char> {
    seq!['/', ',', '-', ' ']
}

/// The impact level that a word in small letters names, by name or by
/// rank from 1 to 3.
pub open spec fn impact_named(word: Seq<char>) -> Option<Impact> {
    if word == "low"@ || word == "1"@ {
        Some(Impact::Low)
    } else if word == "medium"@ || word == "med"@ || word == "2"@ {
        Some(Impact::Medium)
    } else if word == "high"@ || word == "3"@ {
        Some(Impact::High)
    } else {
        None
    }
}

/// The currencies that an optional list text names.
pub open spec fn currencies_in(text: Option<String>) -> Seq<Seq<char>> {
    match text {
        Some(list) => codes(list@, list_delimiters()),
        None => Seq::empty(),
    }
}

/// The date that an optional YYYY-MM-DD text writes.
pub open spec fn date_in_param(text: Option<String>) -> Option<Date> {
    match text {
        Some(day) => iso_date(day@),
        None => None,
    }
}

/// The impact level that an optional text names, whatever its case and
/// the white space around it.
pub open spec fn impact_in_param(text: Option<String>) -> Option<Impact> {
    match text {
        Some(word) => impact_named(lowercase_of(trimmed(word@))),
        None => None,
    }
}

/// The date range that two optional dates ask for: none without a start,
/// the start day alone without an end.
pub open spec fn range_of(from: Option<Date>, to: Option<Date>) -> (Option<Date>, Option<Date>) {
    match from {
        Some(first) => match to {
            Some(last) => (Some(first), Some(last)),
            None => (Some(first), Some(first)),
        },
        None => (None, None),
    }
}

/// The impact level that a word in small letters names.
pub fn impact_from_keyword(word: &str) -> (r: Option<Impact>)
    ensures
        r == impact_named(word@),
{
    if same_text(word, "low") || same_text(word, "1") {
        Some(Impact::Low)
    } else if same_text(word, "medium") || same_text(word, "med") || same_text(word, "2") {
        Some(Impact::Medium)
    } else if same_text(word, "high") || same_text(word, "3") {
        Some(Impact::High)
    } else {
        None
    }
}

/// Reads a list of currencies such as "AUD/CHF", "EUR,GBP" or "USD".
pub fn currencies_from_list(text: &Option<String>) -> (r: Vec<String>)
    ensures
        strings_of(r@) == currencies_in(*text),
{
    match text {
        Some(list) => {
            let delimiters: [char; 4] = ['/', ',', '-', ' '];
            assert(delimiters@ =~= list_delimiters());
            split_codes(list.as_str(), delimiters.as_slice())
        },
        None => {
            let none: Vec<String> = Vec::new();
            assert(strings_of(none@) =~= Seq::<Seq<char>>::empty());
            none
        },
    }
}

/// Reads an impact level given by name or by rank.
pub fn impact_from_param(text: &Option<String>) -> (r: Option<Impact>)
    ensures
        r == impact_in_param(*text),
{
    match text {
        Some(word) => {
            let lowered = str_to_lowercase(trim(word.as_str()));
            impact_from_keyword(lowered.as_str())
        },
        None => None,
    }
}

/// The query that parsed parameters ask for: currencies only where some
/// are named, each put in capitals once more; the range of
/// [`range_of`]; the impact where one is named.
pub open spec fn query_asked(
    query: EventQuery,
    currencies: Seq<Seq<char>>,
    range: (Option<Date>, Option<Date>),
    impact: Option<Impact>,
) -> bool {
    &&& query.currencies@.len() == currencies.len()
    &&& forall|i: int|
        0 <= i < currencies.len() ==> (#[trigger] query.currencies@[i])@ == uppercase_of(
            currencies[i],
        )
    &&& query.from_date == range.0
    &&& query.to_date == range.1
    &&& query.min_impact == impact
}

/// Builds the query that parsed parameters ask for.
pub fn build_query(
    currencies: Vec<String>,
    range: (Option<Date>, Option<Date>),
    impact: Option<Impact>,
) -> (r: EventQuery)
    ensures
        query_asked(r, strings_of(currencies@), range, impact),
{
    let named = if currencies.len() > 0 {
        EventQuery::new().with_currencies(currencies)
    } else {
        EventQuery::new()
    };
    EventQuery {
        currencies: named.currencies,
        from_date: range.0,
        to_date: range.1,
        min_impact: impact,
    }
}

impl QueryEventsParams {
    /// The currencies named, in capitals.
    pub fn parse_currencies(&self) -> (r: Vec<String>)
        ensures
            strings_of(r@) == currencies_in(self.currencies),
    {
        currencies_from_list(&self.currencies)
    }

    /// The start date, if one is given and is a date.
    pub fn parse_from_date(&self) -> (r: Option<Date>)
        ensures
            r == date_in_param(self.from_date),
            r matches Some(d) ==> d.wf(),
    {
        match &self.from_date {
            Some(text) => Date::parse_iso(text.as_str()),
            None => None,
        }
    }

    /// The end date, if one is given and is a date.
    pub fn parse_to_date(&self) -> (r: Option<Date>)
        ensures
            r == date_in_param(self.to_date),
            r matches Some(d) ==> d.wf(),
    {
        match &self.to_date {
            Some(text) => Date::parse_iso(text.as_str()),
            None => None,
        }
    }

    /// The minimum impact, if one is given and names a level.
    pub fn parse_min_impact(&self) -> (r: Option<Impact>)
        ensures
            r == impact_in_param(self.min_impact),
    {
        impact_from_param(&self.min_impact)
    }

    /// The query that the parameters ask for. An end date counts only
    /// beside a start date; a start date alone asks for that one day.
    pub fn to_query(&self) -> (r: EventQuery)
        ensures
            query_asked(
                r,
                currencies_in(self.currencies),
                range_of(date_in_param(self.from_date), date_in_param(self.to_date)),
                impact_in_param(self.min_impact),
            ),
    {
        let from = self.parse_from_date();
        let range = match from {
            Some(first) => match self.parse_to_date() {
                Some(last) => (Some(first), Some(last)),
                None => (Some(first), Some(first)),
            },
            None => (None, None),
        };
        build_query(self.parse_currencies(), range, self.parse_min_impact())
    }
}

impl WeekAroundParams {
    /// The centre date, if the text is a date.
    pub fn parse_date(&self) -> (r: Option<Date>)
        ensures
            r == iso_date(self.date@),
            r matches Some(d) ==> d.wf(),
    {
        Date::parse_iso(self.date.as_str())
    }

    /// The query for the week around the centre date, from three days
    /// before to three days after; none where the text is no date.
    pub fn to_query(&self) -> (r: Option<EventQuery>)
        ensures
            r is Some <==> iso_date(self.date@) is Some,
            r matches Some(query) ==> query_asked(
                query,
                currencies_in(self.currencies),
                (iso_date(self.date@)->0.minus_days(3), iso_date(self.date@)->0.plus_days(3)),
                impact_in_param(self.min_impact),
            ),
    {
        match self.parse_date() {
            Some(date) => {
                let range = (date.checked_sub_days(3), date.checked_add_days(3));
                Some(
                    build_query(
                        currencies_from_list(&self.currencies),
                        range,
                        impact_from_param(&self.min_impact),
                    ),
                )
            },
            None => None,
        }
    }
}

impl EventResult {
    /// The event in the form handed back: the impact by its name in small
    /// letters, the instant as RFC 3339 text, left empty where the instant
    /// has none.
    pub fn from_event(event: EconomicEvent) -> (r: EventResult)
        ensures
            r.name == event.name,
            r.currency == event.currency,
            r.impact@ == event.impact.lowercase_name_text(),
            r.datetime@ == match event.datetime.rfc3339() {
                Some(text) => text,
                None => Seq::empty(),
            },
            r.actual == event.actual,
            r.forecast == event.forecast,
            r.previous == event.previous,
    {
        let datetime = match event.datetime.to_rfc3339() {
            Some(text) => text,
            None => String::new(),
        };
        EventResult {
            name: event.name,
            currency: event.currency,
            impact: String::from_str(event.impact.lowercase_name()),
            datetime,
            actual: event.actual,
            forecast: event.forecast,
            previous: event.previous,
        }
    }
}

} // verus!
