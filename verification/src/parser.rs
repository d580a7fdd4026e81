//! The stateful row parser: walks the rows of a calendar table in order,
//! carries the date and time forward from row to row and emits one event
//! for every data row.

use vstd::prelude::*;
use vstd::string::*;
use crate::date::{parsed_time, time_from_format, time_of_parts, valid_ymd, Date, LocalDateTime, TimeOfDay};
use crate::event::EconomicEvent;
use crate::impact::{classify, Impact};
use crate::text::{
    after_bytes, byte_len, count_bytes, lowercase_of, parse_u32, parse_u32_text, same_text, skip_bytes,
    split_words, str_to_lowercase, trim, trimmed, views_of, words,
};

verus! {

/// The cells of one table row, as raw text; a cell that the row lacks is
/// `None`.
#[derive(Debug, Clone, PartialEq)]
pub struct RowFields {
    /// The date cell, such as "Tue Jan 13".
    pub date: Option<String>,
    /// The time cell, such as "8:30am".
    pub time: Option<String>,
    /// The currency cell.
    pub currency: Option<String>,
    /// The class of the impact marker, such as "icon--ff-impact-red".
    pub impact: Option<String>,
    /// The event title.
    pub name: Option<String>,
    /// The actual value.
    pub actual: Option<String>,
    /// The forecast value.
    pub forecast: Option<String>,
    /// The previous value.
    pub previous: Option<String>,
}

/// The date and time that rows without their own inherit.
#[derive(Debug, Clone, Copy, PartialEq, Eq, Structural)]
pub struct CarryState {
    /// The date declared last, or the reference date.
    pub current_date: Date,
    /// The time declared last on that date, if any.
    pub current_time: Option<TimeOfDay>,
}

/// Parses the rows of a calendar table into events.
#[derive(Debug, Clone, Copy)]
pub struct CalendarParser {}

/// The text of a cell: trimmed, and empty where the cell is missing.
pub open spec fn cell_text(cell: Option<String>) -> Seq<char> {
    match cell {
        Some(text) => trimmed(text@),
        None => Seq::empty(),
    }
}

/// The value of a cell: its text, or nothing where the text is empty.
pub open spec fn cell_value(cell: Option<String>) -> Option<Seq<char>> {
    if cell_text(cell).len() == 0 {
        None
    } else {
        Some(cell_text(cell))
    }
}

/// The text that an optional string holds.
pub open spec fn text_of(value: Option<String>) -> Option<Seq<char>> {
    match value {
        Some(text) => Some(text@),
        None => None,
    }
}

/// The number of the month that a three-letter abbreviation in small
/// letters names.
pub open spec fn month_number(name: Seq<char>) -> Option<u32> {
    if name == "jan"@ {
        Some(1u32)
    } else if name == "feb"@ {
        Some(2u32)
    } else if name == "mar"@ {
        Some(3u32)
    } else if name == "apr"@ {
        Some(4u32)
    } else if name == "may"@ {
        Some(5u32)
    } else if name == "jun"@ {
        Some(6u32)
    } else if name == "jul"@ {
        Some(7u32)
    } else if name == "aug"@ {
        Some(8u32)
    } else if name == "sep"@ {
        Some(9u32)
    } else if name == "oct"@ {
        Some(10u32)
    } else if name == "nov"@ {
        Some(11u32)
    } else if name == "dec"@ {
        Some(12u32)
    } else {
        None
    }
}

/// The month text and the day text among the words of a date cell: the
/// second and third of three words, or, of two words, what follows the
/// first three bytes of a first word of six bytes or more, and the
/// second.
pub open spec fn month_and_day(w: Seq<Seq<char>>) -> Option<(Seq<char>, Seq<char>)> {
    if w.len() == 3 {
        Some((w[1], w[2]))
    } else if w.len() == 2 && byte_len(w[0]) >= 6 {
        match after_bytes(w[0], 3) {
            Some(month) => Some((month, w[1])),
            None => None,
        }
    } else {
        None
    }
}

/// The date that month text and day text name in `year`.
pub open spec fn date_of_tokens(month: Seq<char>, day: Seq<char>, year: i32) -> Option<Date> {
    match (month_number(lowercase_of(month)), parse_u32_text(day)) {
        (Some(m), Some(d)) => if valid_ymd(year as int, m as int, d as int) {
            Some(Date { year, month: m, day: d })
        } else {
            None
        },
        _ => None,
    }
}

/// The date that a date cell such as "Tue Jan 13" or "TueJan 13" declares
/// in `year`, if it declares one.
pub open spec fn date_in(text: Seq<char>, year: i32) -> Option<Date> {
    match month_and_day(words(trimmed(text))) {
        Some((month, day)) => date_of_tokens(month, day, year),
        None => None,
    }
}

/// The first of three readings that succeeded.
pub open spec fn first_reading(
    a: Option<TimeOfDay>,
    b: Option<TimeOfDay>,
    c: Option<TimeOfDay>,
) -> Option<TimeOfDay> {
    if a is Some {
        a
    } else if b is Some {
        b
    } else {
        c
    }
}

/// The time of day that a time text such as "8:30am", "2:00pm" or "14:00"
/// writes: the text is trimmed and put in small letters, then read as a
/// 12-hour time with a space-padded hour, as one with a zero-padded hour,
/// and as a 24-hour time, in this order.
pub open spec fn time_in(text: Seq<char>) -> Option<TimeOfDay> {
    let t = lowercase_of(trimmed(text));
    first_reading(
        time_of_parts(parsed_time(t, "%l:%M%P"@)),
        time_of_parts(parsed_time(t, "%I:%M%P"@)),
        time_of_parts(parsed_time(t, "%H:%M"@)),
    )
}

/// The number of the month that a three-letter abbreviation in small
/// letters names.
pub fn month_from_abbreviation(name: &str) -> (r: Option<u32>)
    ensures
        r == month_number(name@),
        r matches Some(m) ==> 1 <= m <= 12,
{
    if same_text(name, "jan") {
        Some(1)
    } else if same_text(name, "feb") {
        Some(2)
    } else if same_text(name, "mar") {
        Some(3)
    } else if same_text(name, "apr") {
        Some(4)
    } else if same_text(name, "may") {
        Some(5)
    } else if same_text(name, "jun") {
        Some(6)
    } else if same_text(name, "jul") {
        Some(7)
    } else if same_text(name, "aug") {
        Some(8)
    } else if same_text(name, "sep") {
        Some(9)
    } else if same_text(name, "oct") {
        Some(10)
    } else if same_text(name, "nov") {
        Some(11)
    } else if same_text(name, "dec") {
        Some(12)
    } else {
        None
    }
}

/// Reads a date cell such as "Tue Jan 13". The text carries no year, so
/// `reference_year` supplies it.
pub fn parse_date(date_str: &str, reference_year: i32) -> (r: Option<Date>)
    ensures
        r == date_in(date_str@, reference_year),
        r matches Some(d) ==> d.wf(),
{
    let date_str = trim(date_str);
    if date_str.is_empty() {
        return None;
    }
    let parts = split_words(date_str);
    assert(views_of(parts@).len() == parts@.len());
    let (month_str, day_str) = if parts.len() == 3 {
        assert(views_of(parts@)[1] == parts@[1]@ && views_of(parts@)[2] == parts@[2]@);
        (parts[1], parts[2])
    } else if parts.len() == 2 {
        assert(views_of(parts@)[0] == parts@[0]@ && views_of(parts@)[1] == parts@[1]@);
        let first = parts[0];
        if count_bytes(first) < 6 {
            return None;
        }
        match skip_bytes(first, 3) {
            Some(month) => (month, parts[1]),
            None => {
                return None;
            },
        }
    } else {
        return None;
    };
    let lowered = str_to_lowercase(month_str);
    let month = match month_from_abbreviation(lowered.as_str()) {
        Some(m) => m,
        None => {
            return None;
        },
    };
    let day = match parse_u32(day_str) {
        Some(d) => d,
        None => {
            return None;
        },
    };
    Date::from_ymd_opt(reference_year, month, day)
}

/// Reads a time text such as "8:30am", "2:00pm" or "14:00": a time of
/// day on the full minute.
pub fn parse_time(time_str: &str) -> (r: Option<TimeOfDay>)
    ensures
        r == time_in(time_str@),
        r matches Some(t) ==> t.wf() && t.second == 0,
{
    let lowered = str_to_lowercase(trim(time_str));
    let padded = time_from_format(lowered.as_str(), "%l:%M%P");
    if padded.is_some() {
        return padded;
    }
    let zeroed = time_from_format(lowered.as_str(), "%I:%M%P");
    if zeroed.is_some() {
        return zeroed;
    }
    time_from_format(lowered.as_str(), "%H:%M")
}

/// The row is a data row: it has a currency and an event name.
pub open spec fn is_data_row(row: RowFields) -> bool {
    cell_text(row.currency).len() > 0 && cell_text(row.name).len() > 0
}

/// The date that the row declares in `year`, if it declares one.
pub open spec fn declared_date(row: RowFields, year: i32) -> Option<Date> {
    date_in(cell_text(row.date), year)
}

/// The time that the row declares, if it declares one: an empty cell, the
/// all-day marker and the not-yet-scheduled marker declare none.
pub open spec fn declared_time(row: RowFields) -> Option<TimeOfDay> {
    let text = cell_text(row.time);
    if text.len() == 0 || text == "All Day"@ || text == "Tentative"@ {
        None
    } else {
        time_in(text)
    }
}

/// The impact of the row: what its marker names, and the lowest level
/// where the marker is missing or names none.
pub open spec fn impact_of(row: RowFields) -> Impact {
    match row.impact {
        Some(class) => match classify(class@) {
            Some(level) => level,
            None => Impact::Low,
        },
        None => Impact::Low,
    }
}

/// The carry state once the row's date cell is taken in: a declared date
/// replaces the current one and clears the current time.
pub open spec fn after_date(state: CarryState, row: RowFields, year: i32) -> CarryState {
    match declared_date(row, year) {
        Some(date) => CarryState { current_date: date, current_time: None },
        None => state,
    }
}

/// The carry state after the row: its date cell is taken in first; its
/// time cell only if the row is a data row.
pub open spec fn next_state(state: CarryState, row: RowFields, year: i32) -> CarryState {
    let dated = after_date(state, row, year);
    if is_data_row(row) {
        match declared_time(row) {
            Some(time) => CarryState { current_date: dated.current_date, current_time: Some(time) },
            None => dated,
        }
    } else {
        dated
    }
}

/// `event` holds the cells of `row`: its name, currency and impact, and
/// each of the three values where the cell is not empty.
pub open spec fn fields_from(event: EconomicEvent, row: RowFields) -> bool {
    &&& event.name@ == cell_text(row.name)
    &&& event.currency@ == cell_text(row.currency)
    &&& event.impact == impact_of(row)
    &&& text_of(event.actual) == cell_value(row.actual)
    &&& text_of(event.forecast) == cell_value(row.forecast)
    &&& text_of(event.previous) == cell_value(row.previous)
}

/// `event` is the record of the data row `row`: it holds the row's cells
/// and is well formed.
pub open spec fn built_from(event: EconomicEvent, row: RowFields) -> bool {
    fields_from(event, row) && event.wf()
}

/// `event` stands at the date and time of the carry state: its local date
/// is the state's date, its local time the state's time, or midnight
/// where the state has none.
pub open spec fn stands_at(event: EconomicEvent, state: CarryState) -> bool {
    event.datetime.date == state.current_date && event.datetime.time == state.resolved_time()
}

/// `events` are the records of `rows` parsed from the reference date
/// `base`: one for every data row, in the rows' order, each holding its
/// row's cells and standing at the date and time that the carry state
/// holds after that row.
pub open spec fn records_of(events: Seq<EconomicEvent>, rows: Seq<RowFields>, base: Date) -> bool {
    &&& events.len() == data_rows(rows, rows.len() as int).len()
    &&& forall|j: int|
        0 <= j < events.len() ==> {
            let at = #[trigger] data_rows(rows, rows.len() as int)[j];
            &&& 0 <= at < rows.len()
            &&& built_from(events[j], rows[at])
            &&& stands_at(events[j], state_after(rows, base, at + 1))
        }
}

/// The carry state after the first `k` rows, starting from the reference
/// date `base` with no time.
pub open spec fn state_after(rows: Seq<RowFields>, base: Date, k: int) -> CarryState
    decreases k,
{
    if k <= 0 {
        CarryState { current_date: base, current_time: None }
    } else {
        next_state(state_after(rows, base, k - 1), rows[k - 1], base.year)
    }
}

/// The positions of the data rows among the first `k` rows, ascending.
pub open spec fn data_rows(rows: Seq<RowFields>, k: int) -> Seq<int>
    decreases k,
{
    if k <= 0 {
        Seq::empty()
    } else if is_data_row(rows[k - 1]) {
        data_rows(rows, k - 1).push(k - 1)
    } else {
        data_rows(rows, k - 1)
    }
}

impl CarryState {
    /// The date is a day of the calendar and the time, if any, is within
    /// its ranges.
    pub open spec fn wf(self) -> bool {
        self.current_date.wf() && (self.current_time matches Some(t) ==> t.wf())
    }

    /// The time that a row resolves to under this state: the current
    /// time, or midnight where none was declared.
    pub open spec fn resolved_time(self) -> TimeOfDay {
        match self.current_time {
            Some(t) => t,
            None => TimeOfDay::start_of_day(),
        }
    }

    /// The state at the start of a pass: the reference date, no time.
    pub fn new(reference_date: Date) -> (r: CarryState)
        ensures
            r == (CarryState { current_date: reference_date, current_time: None }),
    {
        CarryState { current_date: reference_date, current_time: None }
    }
}

impl CalendarParser {
    /// A parser.
    pub fn new() -> (r: CalendarParser) {
        CalendarParser {  }
    }

    /// The text of a cell: trimmed, and empty where the cell is missing.
    pub fn extract_text(&self, cell: &Option<String>) -> (r: String)
        ensures
            r@ == cell_text(*cell),
    {
        match cell {
            Some(text) => String::from_str(trim(text.as_str())),
            None => String::new(),
        }
    }

    /// The impact level that the row's marker names, if it names one.
    pub fn extract_impact(&self, row: &RowFields) -> (r: Option<Impact>)
        ensures
            r == match row.impact {
                Some(class) => classify(class@),
                None => None,
            },
    {
        match &row.impact {
            Some(class) => Impact::from_ff_class(class.as_str()),
            None => None,
        }
    }

    /// The fold step without the time zone: takes the row's date cell in,
    /// tells whether the row is a data row and, if it is, takes its time
    /// cell in too.
    pub fn advance(&self, row: &RowFields, state: &mut CarryState, reference_year: i32) -> (r:
        bool)
        requires
            old(state).wf(),
        ensures
            *final(state) == next_state(*old(state), *row, reference_year),
            final(state).wf(),
            r == is_data_row(*row),
    {
        let date_text = self.extract_text(&row.date);
        if let Some(parsed_date) = parse_date(date_text.as_str(), reference_year) {
            state.current_date = parsed_date;
            state.current_time = None;
        }
        let currency = self.extract_text(&row.currency);
        if currency.as_str().is_empty() {
            return false;
        }
        let name = self.extract_text(&row.name);
        if name.as_str().is_empty() {
            return false;
        }
        let time_text = self.extract_text(&row.time);
        if !time_text.as_str().is_empty() && !same_text(time_text.as_str(), "All Day")
            && !same_text(time_text.as_str(), "Tentative") {
            if let Some(parsed_time) = parse_time(time_text.as_str()) {
                state.current_time = Some(parsed_time);
            }
        }
        true
    }

    /// The value of a cell: its text, or nothing where the text is empty.
    pub fn extract_value(&self, cell: &Option<String>) -> (r: Option<String>)
        ensures
            text_of(r) == cell_value(*cell),
    {
        let text = self.extract_text(cell);
        if text.as_str().is_empty() {
            None
        } else {
            Some(text)
        }
    }

    /// The record of a row at the given instant. Of a data row and a well
    /// formed instant the record is well formed.
    pub fn record(&self, row: &RowFields, datetime: LocalDateTime) -> (r: EconomicEvent)
        ensures
            fields_from(r, *row),
            r.datetime == datetime,
            is_data_row(*row) && datetime.wf() ==> r.wf(),
    {
        let impact = match self.extract_impact(row) {
            Some(level) => level,
            None => Impact::Low,
        };
        EconomicEvent {
            name: self.extract_text(&row.name),
            currency: self.extract_text(&row.currency),
            impact,
            datetime,
            actual: self.extract_value(&row.actual),
            forecast: self.extract_value(&row.forecast),
            previous: self.extract_value(&row.previous),
        }
    }

    /// Takes one row in: updates the carry state and, for a data row,
    /// hands back its record. The record's instant is what `bind` makes of
    /// the state's date and time after the row, midnight where no time is
    /// current.
    pub fn parse_row_with<F: Fn(Date, TimeOfDay) -> LocalDateTime>(
        &self,
        row: &RowFields,
        state: &mut CarryState,
        reference_year: i32,
        bind: &F,
    ) -> (r: Option<EconomicEvent>)
        requires
            old(state).wf(),
            binds_every_wall_clock(bind),
        ensures
            *final(state) == next_state(*old(state), *row, reference_year),
            final(state).wf(),
            r is Some <==> is_data_row(*row),
            r matches Some(event) ==> built_from(event, *row) && call_ensures(
                bind,
                (final(state).current_date, final(state).resolved_time()),
                event.datetime,
            ),
    {
        if !self.advance(row, state, reference_year) {
            return None;
        }
        let time = match state.current_time {
            Some(t) => t,
            None => TimeOfDay::midnight(),
        };
        let datetime = bind(state.current_date, time);
        Some(self.record(row, datetime))
    }

    /// Takes one row in: updates the carry state and, for a data row,
    /// hands back its record. The record stands at the state's date and
    /// time after the row, midnight where no time is current, on the
    /// local wall clock; its offset from UTC is that of the machine's
    /// time zone.
    pub fn parse_row(&self, row: &RowFields, state: &mut CarryState, reference_year: i32) -> (r:
        Option<EconomicEvent>)
        requires
            old(state).wf(),
        ensures
            *final(state) == next_state(*old(state), *row, reference_year),
            final(state).wf(),
            r is Some <==> is_data_row(*row),
            r matches Some(event) ==> built_from(event, *row) && stands_at(event, *final(state)),
    {
        self.parse_row_with(row, state, reference_year, &LocalDateTime::from_local)
    }

    /// Parses the rows of a table, in order, into events: one per data
    /// row, in the rows' order. `base_date` is the date that rows resolve
    /// to until one declares its own, and its year is the year of every
    /// declared date. The instant of each record is what `bind` makes of
    /// the date and time that hold after its row.
    pub fn parse_with<F: Fn(Date, TimeOfDay) -> LocalDateTime>(
        &self,
        rows: &[RowFields],
        base_date: Date,
        bind: &F,
    ) -> (events: Vec<EconomicEvent>)
        requires
            base_date.wf(),
            binds_every_wall_clock(bind),
        ensures
            events@.len() == data_rows(rows@, rows@.len() as int).len(),
            forall|j: int|
                0 <= j < events@.len() ==> {
                    let at = #[trigger] data_rows(rows@, rows@.len() as int)[j];
                    let state = state_after(rows@, base_date, at + 1);
                    &&& 0 <= at < rows@.len()
                    &&& built_from(events@[j], rows@[at])
                    &&& call_ensures(
                        bind,
                        (state.current_date, state.resolved_time()),
                        events@[j].datetime,
                    )
                },
    {
        let n: usize = rows.len();
        let mut events: Vec<EconomicEvent> = Vec::new();
        let mut state = CarryState::new(base_date);
        let reference_year: i32 = base_date.year;
        let mut i: usize = 0;
        while i < n
            invariant
                n == rows@.len(),
                i <= n,
                reference_year == base_date.year,
                binds_every_wall_clock(bind),
                state == state_after(rows@, base_date, i as int),
                state.wf(),
                events@.len() == data_rows(rows@, i as int).len(),
                forall|j: int|
                    0 <= j < events@.len() ==> {
                        let at = #[trigger] data_rows(rows@, i as int)[j];
                        let then = state_after(rows@, base_date, at + 1);
                        &&& 0 <= at < i
                        &&& built_from(events@[j], rows@[at])
                        &&& call_ensures(
                            bind,
                            (then.current_date, then.resolved_time()),
                            events@[j].datetime,
                        )
                    },
            decreases n - i,
        {
            let found = self.parse_row_with(&rows[i], &mut state, reference_year, bind);
            if let Some(event) = found {
                events.push(event);
            }
            i = i + 1;
        }
        events
    }

    /// Parses the rows of a table, in order, into events: one per data
    /// row, in the rows' order. `base_date` is the date that rows stand at
    /// until one declares its own, and its year is the year of every
    /// declared date. Each record stands, on the local wall clock, at the
    /// date and time that hold after its row; its offset from UTC is that
    /// of the machine's time zone.
    pub fn parse(&self, rows: &[RowFields], base_date: Date) -> (events: Vec<EconomicEvent>)
        requires
            base_date.wf(),
        ensures
            records_of(events@, rows@, base_date),
    {
        self.parse_with(rows, base_date, &LocalDateTime::from_local)
    }
}

/// `bind` takes every well-formed date and time and hands back a
/// well-formed instant.
pub open spec fn binds_every_wall_clock<F: Fn(Date, TimeOfDay) -> LocalDateTime>(bind: &F) -> bool {
    &&& forall|date: Date, time: TimeOfDay|
        date.wf() && time.wf() ==> #[trigger] call_requires(bind, (date, time))
    &&& forall|date: Date, time: TimeOfDay, at: LocalDateTime| #[trigger]
        call_ensures(bind, (date, time), at) ==> at.wf()
}

} // verus!
