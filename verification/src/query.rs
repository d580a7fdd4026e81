//! Queries over event records: currencies, an inclusive date range and a
//! minimum impact.

use vstd::prelude::*;
use crate::date::{Date, LocalDateTime};
use crate::event::{currency_listed, EconomicEvent};
use crate::impact::Impact;
use crate::text::{codes, split_codes, str_to_uppercase, strings_of, uppercase_of};

verus! {

/// Query parameters for filtering economic events.
#[derive(Debug, Clone)]
pub struct EventQuery {
    /// Currencies to keep; empty means all currencies.
    pub currencies: Vec<String>,
    /// First day of the range, if it has one.
    pub from_date: Option<Date>,
    /// Last day of the range, if it has one.
    pub to_date: Option<Date>,
    /// Minimum impact level; none stands for the lowest.
    pub min_impact: Option<Impact>,
}

/// The characters that separate the two halves of a currency pair.
pub open spec fn pair_delimiters() -> Seq<char> {
    seq!['/', '-', '_']
}

impl Default for EventQuery {
    fn default() -> (r: EventQuery)
        ensures
            r.is_unrestricted(),
    {
        EventQuery { currencies: Vec::new(), from_date: None, to_date: None, min_impact: None }
    }
}

impl EventQuery {
    /// The query names no currency, no date and no impact.
    pub open spec fn is_unrestricted(self) -> bool {
        &&& self.currencies@.len() == 0
        &&& self.from_date is None
        &&& self.to_date is None
        &&& self.min_impact is None
    }

    /// The impact an event must reach: the lowest where none is set.
    pub open spec fn threshold(self) -> Impact {
        match self.min_impact {
            Some(level) => level,
            None => Impact::Low,
        }
    }

    /// `date` lies within the range; each bound that is set is inclusive.
    pub open spec fn in_range(self, date: Date) -> bool {
        &&& self.from_date matches Some(from) ==> !date.before(from)
        &&& self.to_date matches Some(to) ==> !to.before(date)
    }

    /// The query accepts `event`: by impact, by currency and by local
    /// calendar date.
    pub open spec fn accepts(self, event: EconomicEvent) -> bool {
        &&& event.impact.at_least(self.threshold())
        &&& currency_listed(event.currency@, self.currencies@)
        &&& self.in_range(event.datetime.date)
    }

    /// [`EventQuery::accepts`] as a predicate on events.
    pub open spec fn predicate(self) -> spec_fn(EconomicEvent) -> bool {
        |event: EconomicEvent| self.accepts(event)
    }

    /// A query that matches all events.
    pub fn new() -> (r: EventQuery)
        ensures
            r.is_unrestricted(),
    {
        EventQuery { currencies: Vec::new(), from_date: None, to_date: None, min_impact: None }
    }

    /// Sets the currencies from a pair such as `AUD/CHF`, `EUR-USD` or
    /// `gbp_jpy`.
    pub fn with_currency_pair(self, pair: &str) -> (r: EventQuery)
        ensures
            strings_of(r.currencies@) == codes(pair@, pair_delimiters()),
            r.from_date == self.from_date,
            r.to_date == self.to_date,
            r.min_impact == self.min_impact,
    {
        let delimiters: [char; 3] = ['/', '-', '_'];
        assert(delimiters@ =~= pair_delimiters());
        let currencies = split_codes(pair, delimiters.as_slice());
        EventQuery {
            currencies,
            from_date: self.from_date,
            to_date: self.to_date,
            min_impact: self.min_impact,
        }
    }

    /// Sets a single currency, in capitals.
    pub fn with_currency(self, currency: &str) -> (r: EventQuery)
        ensures
            strings_of(r.currencies@) == seq![uppercase_of(currency@)],
            r.from_date == self.from_date,
            r.to_date == self.to_date,
            r.min_impact == self.min_impact,
    {
        let mut currencies: Vec<String> = Vec::new();
        currencies.push(str_to_uppercase(currency));
        assert(strings_of(currencies@) =~= seq![uppercase_of(currency@)]);
        EventQuery {
            currencies,
            from_date: self.from_date,
            to_date: self.to_date,
            min_impact: self.min_impact,
        }
    }

    /// Sets the currencies, each in capitals, in the order given.
    pub fn with_currencies(self, currencies: Vec<String>) -> (r: EventQuery)
        ensures
            r.currencies@.len() == currencies@.len(),
            forall|i: int|
                0 <= i < currencies@.len() ==> (#[trigger] r.currencies@[i])@ == uppercase_of(
                    currencies@[i]@,
                ),
            r.from_date == self.from_date,
            r.to_date == self.to_date,
            r.min_impact == self.min_impact,
    {
        let n: usize = currencies.len();
        let mut upper: Vec<String> = Vec::new();
        let mut i: usize = 0;
        while i < n
            invariant
                n == currencies@.len(),
                i <= n,
                upper@.len() == i,
                forall|j: int|
                    0 <= j < i ==> (#[trigger] upper@[j])@ == uppercase_of(currencies@[j]@),
            decreases n - i,
        {
            upper.push(str_to_uppercase(currencies[i].as_str()));
            i = i + 1;
        }
        EventQuery {
            currencies: upper,
            from_date: self.from_date,
            to_date: self.to_date,
            min_impact: self.min_impact,
        }
    }

    /// Sets both ends of the date range.
    pub fn with_date_range(self, from: Date, to: Date) -> (r: EventQuery)
        ensures
            r.currencies == self.currencies,
            r.from_date == Some(from),
            r.to_date == Some(to),
            r.min_impact == self.min_impact,
    {
        EventQuery {
            currencies: self.currencies,
            from_date: Some(from),
            to_date: Some(to),
            min_impact: self.min_impact,
        }
    }

    /// Sets the range to the week around `date`: from three days before to
    /// three days after. An end that would leave the calendar is unset.
    pub fn with_week_around(self, date: Date) -> (r: EventQuery)
        requires
            date.wf(),
        ensures
            r.currencies == self.currencies,
            r.from_date == date.minus_days(3),
            r.to_date == date.plus_days(3),
            r.min_impact == self.min_impact,
    {
        EventQuery {
            currencies: self.currencies,
            from_date: date.checked_sub_days(3),
            to_date: date.checked_add_days(3),
            min_impact: self.min_impact,
        }
    }

    /// Sets the minimum impact level.
    pub fn with_min_impact(self, impact: Impact) -> (r: EventQuery)
        ensures
            r.currencies == self.currencies,
            r.from_date == self.from_date,
            r.to_date == self.to_date,
            r.min_impact == Some(impact),
    {
        EventQuery {
            currencies: self.currencies,
            from_date: self.from_date,
            to_date: self.to_date,
            min_impact: Some(impact),
        }
    }

    /// Sets the minimum impact level by star rating; a rating outside one
    /// to three unsets it.
    pub fn with_min_stars(self, stars: u8) -> (r: EventQuery)
        ensures
            r.currencies == self.currencies,
            r.from_date == self.from_date,
            r.to_date == self.to_date,
            r.min_impact == Impact::of_stars(stars),
    {
        EventQuery {
            currencies: self.currencies,
            from_date: self.from_date,
            to_date: self.to_date,
            min_impact: Impact::from_stars(stars),
        }
    }

    /// The date whose calendar page holds the events asked for: the start
    /// of the range, or `today` where the range has no start.
    pub fn base_date(&self, today: Date) -> (r: Date)
        ensures
            r == match self.from_date {
                Some(from) => from,
                None => today,
            },
    {
        match self.from_date {
            Some(from) => from,
            None => today,
        }
    }

    /// Whether the local calendar date of `datetime` lies within the
    /// query's date range.
    pub fn datetime_in_range(&self, datetime: &LocalDateTime) -> (r: bool)
        ensures
            r == self.in_range(datetime.date),
    {
        let date = datetime.date_naive();
        if let Some(from) = self.from_date {
            if date.is_before(&from) {
                return false;
            }
        }
        if let Some(to) = self.to_date {
            if to.is_before(&date) {
                return false;
            }
        }
        true
    }

    /// Whether the query accepts `event`.
    pub fn matches(&self, event: &EconomicEvent) -> (r: bool)
        ensures
            r == self.accepts(*event),
    {
        let threshold = match self.min_impact {
            Some(level) => level,
            None => Impact::Low,
        };
        event.meets_impact(threshold) && event.matches_currencies(self.currencies.as_slice())
            && self.datetime_in_range(&event.datetime)
    }

    /// The events that the query accepts, in the order they were given:
    /// a stable filter, with every kept event equal to its source.
    pub fn filter(&self, events: &[EconomicEvent]) -> (out: Vec<EconomicEvent>)
        ensures
            out@ == events@.filter(self.predicate()),
    {
        let n: usize = events.len();
        let mut out: Vec<EconomicEvent> = Vec::new();
        let mut i: usize = 0;
        proof {
            reveal(Seq::filter);
            assert(events@.take(0) =~= Seq::<EconomicEvent>::empty());
        }
        while i < n
            invariant
                n == events@.len(),
                i <= n,
                out@ == events@.take(i as int).filter(self.predicate()),
            decreases n - i,
        {
            proof {
                reveal(Seq::filter);
                assert(events@.take(i + 1).drop_last() =~= events@.take(i as int));
                assert(events@.take(i + 1).last() == events@[i as int]);
            }
            if self.matches(&events[i]) {
                out.push(events[i].duplicate());
            }
            i = i + 1;
        }
        assert(events@.take(n as int) =~= events@);
        out
    }
}

} // verus!
