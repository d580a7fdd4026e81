//! What a fetched calendar page is, and where the pages are found.

use vstd::prelude::*;
use vstd::string::*;
use crate::date::{format_week_param, week_param, Date};
use crate::text::{contains, occurs_in};

verus! {

/// What came back for a calendar address.
#[derive(Debug, Clone, Copy, PartialEq, Eq, Structural)]
pub enum PageKind {
    /// A browser check stands in front of the page.
    Challenge,
    /// A page without the calendar table.
    NoCalendar,
    /// A page that holds the calendar table.
    Calendar,
}

/// The kind of a page: a browser check is recognised by either of its two
/// notices, a calendar by either of the table's two class names; the
/// notices are looked for first.
pub open spec fn page_kind(html: Seq<char>) -> PageKind {
    if occurs_in(html, "Just a moment..."@) || occurs_in(html, "Verifying you are human"@) {
        PageKind::Challenge
    } else if !occurs_in(html, "calendar__table"@) && !occurs_in(html, "calendar_row"@) {
        PageKind::NoCalendar
    } else {
        PageKind::Calendar
    }
}

/// Tells a calendar page from a browser check and from any other page.
pub fn classify_page(html: &str) -> (r: PageKind)
    ensures
        r == page_kind(html@),
{
    if contains(html, "Just a moment...") || contains(html, "Verifying you are human") {
        PageKind::Challenge
    } else if !contains(html, "calendar__table") && !contains(html, "calendar_row") {
        PageKind::NoCalendar
    } else {
        PageKind::Calendar
    }
}

/// The address of the calendar of the week that a week parameter names.
pub fn week_url(week: &str) -> (r: String)
    ensures
        r@ == "https://www.forexfactory.com/calendar?week="@ + week@,
{
    let mut url = String::from_str("https://www.forexfactory.com/calendar?week=");
    url.append(week);
    url
}

/// The address of the calendar of the week of a date.
pub fn date_url(date: Date) -> (r: String)
    requires
        date.wf(),
    ensures
        r@ == "https://www.forexfactory.com/calendar?week="@ + week_param(date),
{
    let week = format_week_param(date);
    week_url(week.as_str())
}

/// The address of today's calendar.
pub fn today_url() -> (r: &'static str)
    ensures
        r@ == "https://www.forexfactory.com/calendar?day=today"@,
{
    "https://www.forexfactory.com/calendar?day=today"
}

/// The address of this week's calendar.
pub fn this_week_url() -> (r: &'static str)
    ensures
        r@ == "https://www.forexfactory.com/calendar?week=this"@,
{
    "https://www.forexfactory.com/calendar?week=this"
}

} // verus!
