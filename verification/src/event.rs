//! The event record and its predicates.

use vstd::prelude::*;
use crate::date::LocalDateTime;
use crate::impact::Impact;
use crate::text::{eq_ignore_ascii_case, same_ignoring_ascii_case};

verus! {

/// One scheduled economic release.
#[derive(Debug, Clone, PartialEq)]
pub struct EconomicEvent {
    /// Event title, such as "Non-Farm Payrolls".
    pub name: String,
    /// Currency affected, such as "USD".
    pub currency: String,
    /// Impact level on the market.
    pub impact: Impact,
    /// Scheduled date and time, in the local time zone.
    pub datetime: LocalDateTime,
    /// Actual value, once released.
    pub actual: Option<String>,
    /// Forecast value.
    pub forecast: Option<String>,
    /// The previous period's value.
    pub previous: Option<String>,
}

/// An optional value is either absent or a non-empty text.
pub open spec fn absent_or_filled(value: Option<String>) -> bool {
    value matches Some(text) ==> text@.len() > 0
}

/// `currency` passes a list of wanted currencies: the empty list admits
/// every currency, any other list those it names, whatever the case of
/// their letters.
pub open spec fn currency_listed(currency: Seq<char>, wanted: Seq<String>) -> bool {
    wanted.len() == 0 || exists|i: int|
        0 <= i < wanted.len() && same_ignoring_ascii_case((#[trigger] wanted[i])@, currency)
}

/// A copy of an optional text.
pub fn copy_of_text(value: &Option<String>) -> (r: Option<String>)
    ensures
        r == *value,
{
    match value {
        Some(text) => Some(text.clone()),
        None => None,
    }
}

impl EconomicEvent {
    /// Name and currency are non-empty, the instant is well formed and no
    /// value is an empty text.
    pub open spec fn wf(self) -> bool {
        &&& self.name@.len() > 0
        &&& self.currency@.len() > 0
        &&& self.datetime.wf()
        &&& absent_or_filled(self.actual)
        &&& absent_or_filled(self.forecast)
        &&& absent_or_filled(self.previous)
    }

    /// Whether the event's impact is at least `min_impact`.
    pub fn meets_impact(&self, min_impact: Impact) -> (r: bool)
        ensures
            r == self.impact.at_least(min_impact),
    {
        self.impact.meets(min_impact)
    }

    /// Whether the event is for one of the given currencies; an empty list
    /// stands for all of them.
    pub fn matches_currencies(&self, currencies: &[String]) -> (r: bool)
        ensures
            r == currency_listed(self.currency@, currencies@),
    {
        let n: usize = currencies.len();
        if n == 0 {
            return true;
        }
        let mut i: usize = 0;
        while i < n
            invariant
                n == currencies@.len(),
                i <= n,
                forall|j: int|
                    0 <= j < i ==> !same_ignoring_ascii_case(
                        (#[trigger] currencies@[j])@,
                        self.currency@,
                    ),
            decreases n - i,
        {
            if eq_ignore_ascii_case(currencies[i].as_str(), self.currency.as_str()) {
                return true;
            }
            i = i + 1;
        }
        false
    }

    /// A copy of the event, equal to it field by field.
    pub fn duplicate(&self) -> (r: EconomicEvent)
        ensures
            r == *self,
    {
        EconomicEvent {
            name: self.name.clone(),
            currency: self.currency.clone(),
            impact: self.impact,
            datetime: self.datetime,
            actual: copy_of_text(&self.actual),
            forecast: copy_of_text(&self.forecast),
            previous: copy_of_text(&self.previous),
        }
    }
}

} // verus!
