//! Laws of the parser's carry state, of the impact order and of the query
//! filter.

use vstd::prelude::*;
use crate::date::{Date, TimeOfDay};
use crate::event::{currency_listed, EconomicEvent};
use crate::impact::Impact;
use crate::parser::{
    cell_text, data_rows, declared_date, declared_time, is_data_row, next_state, records_of,
    state_after, CarryState, RowFields,
};
use crate::query::EventQuery;
use crate::text::same_ignoring_ascii_case;

verus! {

/// A declared date carries forward: when row `i` declares a date and no
/// row after it up to row `j` declares one, row `j` is resolved under
/// that date.
pub proof fn lemma_date_carries_forward(rows: Seq<RowFields>, base: Date, i: int, j: int)
    requires
        0 <= i <= j < rows.len(),
        declared_date(rows[i], base.year) is Some,
        forall|k: int| i < k <= j ==> declared_date(#[trigger] rows[k], base.year) is None,
    ensures
        Some(state_after(rows, base, j + 1).current_date) == declared_date(rows[i], base.year),
    decreases j - i,
{
    if i < j {
        lemma_date_carries_forward(rows, base, i, j - 1);
        assert(declared_date(rows[j], base.year) is None);
    }
}

/// Until a row declares a date, rows are resolved under the reference
/// date.
pub proof fn lemma_reference_date_holds(rows: Seq<RowFields>, base: Date, j: int)
    requires
        0 <= j <= rows.len(),
        forall|k: int| 0 <= k < j ==> declared_date(#[trigger] rows[k], base.year) is None,
    ensures
        state_after(rows, base, j).current_date == base,
    decreases j,
{
    if j > 0 {
        lemma_reference_date_holds(rows, base, j - 1);
        assert(declared_date(rows[j - 1], base.year) is None);
    }
}

/// A declared time carries forward within a day: when the data row `i`
/// declares a time and no row after it up to row `j` declares a date or,
/// being a data row, a time, row `j` is resolved at that time.
pub proof fn lemma_time_carries_forward(rows: Seq<RowFields>, base: Date, i: int, j: int)
    requires
        0 <= i <= j < rows.len(),
        is_data_row(rows[i]),
        declared_time(rows[i]) is Some,
        forall|k: int| i < k <= j ==> declared_date(#[trigger] rows[k], base.year) is None,
        forall|k: int|
            i < k <= j && is_data_row(#[trigger] rows[k]) ==> declared_time(rows[k]) is None,
    ensures
        state_after(rows, base, j + 1).current_time == declared_time(rows[i]),
    decreases j - i,
{
    if i < j {
        lemma_time_carries_forward(rows, base, i, j - 1);
        assert(declared_date(rows[j], base.year) is None);
        assert(is_data_row(rows[j]) ==> declared_time(rows[j]) is None);
    }
}

/// A new date resets the time: a row that declares a date and no time is
/// resolved at midnight, whatever time was current before it.
pub proof fn lemma_date_resets_time(state: CarryState, row: RowFields, year: i32)
    requires
        declared_date(row, year) is Some,
        declared_time(row) is None,
    ensures
        next_state(state, row, year).current_time is None,
        next_state(state, row, year).resolved_time() == TimeOfDay::start_of_day(),
        Some(next_state(state, row, year).current_date) == declared_date(row, year),
{
}

/// A row that is not a data row still takes its date in: a date-header
/// row sets the date for the rows after it and clears the time.
pub proof fn lemma_header_row_sets_date(state: CarryState, row: RowFields, year: i32)
    requires
        !is_data_row(row),
        declared_date(row, year) is Some,
    ensures
        Some(next_state(state, row, year).current_date) == declared_date(row, year),
        next_state(state, row, year).current_time is None,
{
}

/// A row that neither is a data row nor declares a date leaves the carry
/// state as it was.
pub proof fn lemma_spacer_row_keeps_state(state: CarryState, row: RowFields, year: i32)
    requires
        !is_data_row(row),
        declared_date(row, year) is None,
    ensures
        next_state(state, row, year) == state,
{
}

/// Carry-forward in the records: when row `i` declares a date and no row
/// after it up to the data row `j` declares one, the record of row `j`
/// stands on that date.
pub proof fn lemma_record_carries_date(
    events: Seq<EconomicEvent>,
    rows: Seq<RowFields>,
    base: Date,
    i: int,
    j: int,
    k: int,
)
    requires
        records_of(events, rows, base),
        0 <= i <= j < rows.len(),
        declared_date(rows[i], base.year) is Some,
        forall|m: int| i < m <= j ==> declared_date(#[trigger] rows[m], base.year) is None,
        0 <= k < events.len(),
        data_rows(rows, rows.len() as int)[k] == j,
    ensures
        Some(events[k].datetime.date) == declared_date(rows[i], base.year),
{
    lemma_date_carries_forward(rows, base, i, j);
}

/// Carry-forward of the time in the records: when the data row `i`
/// declares a time and no row after it up to the data row `j` declares a
/// date or, being a data row, a time, the record of row `j` stands at that
/// time.
pub proof fn lemma_record_carries_time(
    events: Seq<EconomicEvent>,
    rows: Seq<RowFields>,
    base: Date,
    i: int,
    j: int,
    k: int,
)
    requires
        records_of(events, rows, base),
        0 <= i <= j < rows.len(),
        is_data_row(rows[i]),
        declared_time(rows[i]) is Some,
        forall|m: int| i < m <= j ==> declared_date(#[trigger] rows[m], base.year) is None,
        forall|m: int|
            i < m <= j && is_data_row(#[trigger] rows[m]) ==> declared_time(rows[m]) is None,
        0 <= k < events.len(),
        data_rows(rows, rows.len() as int)[k] == j,
    ensures
        Some(events[k].datetime.time) == declared_time(rows[i]),
{
    lemma_time_carries_forward(rows, base, i, j);
}

/// Time reset in the records: the record of a data row that declares a
/// date and no time stands on that date at midnight, whatever the rows
/// before it declared.
pub proof fn lemma_record_after_new_date_is_at_midnight(
    events: Seq<EconomicEvent>,
    rows: Seq<RowFields>,
    base: Date,
    j: int,
    k: int,
)
    requires
        records_of(events, rows, base),
        0 <= j < rows.len(),
        declared_date(rows[j], base.year) is Some,
        declared_time(rows[j]) is None,
        0 <= k < events.len(),
        data_rows(rows, rows.len() as int)[k] == j,
    ensures
        Some(events[k].datetime.date) == declared_date(rows[j], base.year),
        events[k].datetime.time == TimeOfDay::start_of_day(),
{
    lemma_date_resets_time(state_after(rows, base, j), rows[j], base.year);
}

/// Until a row declares a date or a time, records stand on the reference
/// date at midnight: a cell that cannot be read drops only its own
/// update.
pub proof fn lemma_record_before_any_date(
    events: Seq<EconomicEvent>,
    rows: Seq<RowFields>,
    base: Date,
    j: int,
    k: int,
)
    requires
        records_of(events, rows, base),
        0 <= j < rows.len(),
        forall|m: int| 0 <= m <= j ==> declared_date(#[trigger] rows[m], base.year) is None,
        forall|m: int| 0 <= m <= j ==> declared_time(#[trigger] rows[m]) is None,
        0 <= k < events.len(),
        data_rows(rows, rows.len() as int)[k] == j,
    ensures
        events[k].datetime.date == base,
        events[k].datetime.time == TimeOfDay::start_of_day(),
{
    lemma_untouched_state(rows, base, j + 1);
}

/// While no row declares a date or a time, the carry state is the one the
/// pass started with.
pub proof fn lemma_untouched_state(rows: Seq<RowFields>, base: Date, j: int)
    requires
        0 <= j <= rows.len(),
        forall|m: int| 0 <= m < j ==> declared_date(#[trigger] rows[m], base.year) is None,
        forall|m: int| 0 <= m < j ==> declared_time(#[trigger] rows[m]) is None,
    ensures
        state_after(rows, base, j) == (CarryState { current_date: base, current_time: None }),
    decreases j,
{
    if j > 0 {
        lemma_untouched_state(rows, base, j - 1);
        assert(declared_date(rows[j - 1], base.year) is None);
        assert(declared_time(rows[j - 1]) is None);
    }
}

/// Two data rows, the first declaring a date and a time, the second
/// neither: there are two records, both on that date at that time.
pub proof fn lemma_second_row_inherits(events: Seq<EconomicEvent>, rows: Seq<RowFields>, base: Date)
    requires
        records_of(events, rows, base),
        rows.len() == 2,
        is_data_row(rows[0]),
        is_data_row(rows[1]),
        declared_date(rows[0], base.year) is Some,
        declared_time(rows[0]) is Some,
        declared_date(rows[1], base.year) is None,
        declared_time(rows[1]) is None,
    ensures
        events.len() == 2,
        Some(events[0].datetime.date) == declared_date(rows[0], base.year),
        Some(events[1].datetime.date) == declared_date(rows[0], base.year),
        Some(events[0].datetime.time) == declared_time(rows[0]),
        Some(events[1].datetime.time) == declared_time(rows[0]),
{
    reveal_with_fuel(data_rows, 3);
    reveal_with_fuel(state_after, 3);
    assert(data_rows(rows, 2) =~= seq![0int, 1int]);
    assert(data_rows(rows, 2)[0] == 0 && data_rows(rows, 2)[1] == 1);
}

/// A date-header row before a data row: the header gives no record, and
/// the record of the data row, which declares neither date nor time,
/// stands on the header's date at midnight.
pub proof fn lemma_row_after_header(events: Seq<EconomicEvent>, rows: Seq<RowFields>, base: Date)
    requires
        records_of(events, rows, base),
        rows.len() == 2,
        !is_data_row(rows[0]),
        declared_date(rows[0], base.year) is Some,
        is_data_row(rows[1]),
        declared_date(rows[1], base.year) is None,
        declared_time(rows[1]) is None,
    ensures
        events.len() == 1,
        Some(events[0].datetime.date) == declared_date(rows[0], base.year),
        events[0].datetime.time == TimeOfDay::start_of_day(),
{
    reveal_with_fuel(data_rows, 3);
    reveal_with_fuel(state_after, 3);
    assert(data_rows(rows, 2) =~= seq![1int]);
    assert(data_rows(rows, 2)[0] == 1);
}

/// The skip rule: a row with an empty currency, or with a currency and an
/// empty event name, adds no record.
pub proof fn lemma_skipped_row_adds_nothing(rows: Seq<RowFields>, row: RowFields)
    requires
        cell_text(row.currency).len() == 0 || cell_text(row.name).len() == 0,
    ensures
        !is_data_row(row),
        data_rows(rows.push(row), rows.len() as int + 1) == data_rows(rows, rows.len() as int),
{
    lemma_data_rows_of_prefix(rows.push(row), rows, rows.len() as int);
}

/// The data rows among the first `k` rows depend on those rows alone.
pub proof fn lemma_data_rows_of_prefix(a: Seq<RowFields>, b: Seq<RowFields>, k: int)
    requires
        0 <= k <= a.len(),
        k <= b.len(),
        forall|i: int| 0 <= i < k ==> a[i] == b[i],
    ensures
        data_rows(a, k) == data_rows(b, k),
    decreases k,
{
    if k > 0 {
        lemma_data_rows_of_prefix(a, b, k - 1);
    }
}

/// The positions that `data_rows` lists are those of data rows, ascend
/// strictly, and there are at most `k` of them.
pub proof fn lemma_data_rows_ascend(rows: Seq<RowFields>, k: int)
    requires
        0 <= k <= rows.len(),
    ensures
        data_rows(rows, k).len() <= k,
        forall|j: int|
            0 <= j < data_rows(rows, k).len() ==> 0 <= (#[trigger] data_rows(rows, k)[j]) < k
                && is_data_row(rows[data_rows(rows, k)[j]]),
        forall|a: int, b: int|
            0 <= a < b < data_rows(rows, k).len() ==> data_rows(rows, k)[a] < data_rows(
                rows,
                k,
            )[b],
    decreases k,
{
    if k > 0 {
        lemma_data_rows_ascend(rows, k - 1);
    }
}

/// The impact levels are totally ordered: of any two, exactly one of
/// below, equal and above holds.
pub proof fn lemma_impact_total_order(a: Impact, b: Impact)
    ensures
        a.rank() < b.rank() || a == b || a.rank() > b.rank(),
        !(a.rank() < b.rank() && a == b),
        !(a.rank() < b.rank() && a.rank() > b.rank()),
        !(a == b && a.rank() > b.rank()),
        a.at_least(b) <==> !(a.rank() < b.rank()),
        Impact::Low.rank() < Impact::Medium.rank() < Impact::High.rank(),
{
}

/// The impact order is transitive and antisymmetric.
pub proof fn lemma_impact_order_is_partial_order(a: Impact, b: Impact, c: Impact)
    ensures
        a.at_least(a),
        a.at_least(b) && b.at_least(c) ==> a.at_least(c),
        a.at_least(b) && b.at_least(a) ==> a == b,
{
}

/// An empty list of currencies matches every currency.
pub proof fn lemma_empty_list_matches_all(currency: Seq<char>, wanted: Seq<String>)
    requires
        wanted.len() == 0,
    ensures
        currency_listed(currency, wanted),
{
}

/// A list matches a currency that one of its entries names, whatever the
/// case of the letters.
pub proof fn lemma_listed_currency_matches(currency: Seq<char>, wanted: Seq<String>, i: int)
    requires
        0 <= i < wanted.len(),
        same_ignoring_ascii_case(wanted[i]@, currency),
    ensures
        currency_listed(currency, wanted),
{
}

/// A list that is not empty and of which no entry names the currency
/// rejects it.
pub proof fn lemma_unlisted_currency_rejected(currency: Seq<char>, wanted: Seq<String>)
    requires
        wanted.len() > 0,
        forall|i: int|
            0 <= i < wanted.len() ==> !same_ignoring_ascii_case((#[trigger] wanted[i])@, currency),
    ensures
        !currency_listed(currency, wanted),
{
}

/// Texts that differ only in the case of ASCII letters are the same
/// currency: the comparison is reflexive and symmetric.
pub proof fn lemma_case_insensitive_is_symmetric(a: Seq<char>, b: Seq<char>)
    ensures
        same_ignoring_ascii_case(a, a),
        same_ignoring_ascii_case(a, b) == same_ignoring_ascii_case(b, a),
{
}

/// Both ends of the date range are inclusive and each stands alone.
pub proof fn lemma_range_is_inclusive(query: EventQuery, date: Date)
    ensures
        query.from_date == Some(date) && query.to_date is None ==> query.in_range(date),
        query.to_date == Some(date) && query.from_date is None ==> query.in_range(date),
        query.from_date == Some(date) && query.to_date == Some(date) ==> query.in_range(date),
        query.from_date is None && query.to_date is None ==> query.in_range(date),
        query.in_range(date) <==> (query.from_date matches Some(from) ==> from.not_after(date))
            && (query.to_date matches Some(to) ==> date.not_after(to)),
{
}

/// A query without restrictions accepts every event.
pub proof fn lemma_unrestricted_accepts_all(query: EventQuery, event: EconomicEvent)
    requires
        query.is_unrestricted(),
    ensures
        query.accepts(event),
{
}

/// Filtering by a query without restrictions hands every event back,
/// unchanged and in the same order.
pub proof fn lemma_unrestricted_filter_is_identity(query: EventQuery, events: Seq<EconomicEvent>)
    requires
        query.is_unrestricted(),
    ensures
        events.filter(query.predicate()) == events,
    decreases events.len(),
{
    reveal(Seq::filter);
    if events.len() > 0 {
        lemma_unrestricted_filter_is_identity(query, events.drop_last());
        assert(query.predicate()(events.last()));
        assert(events.drop_last().push(events.last()) =~= events);
    }
}

/// A filter is stable: what it keeps are accepted events of the input, in
/// the input's order, and filtering again changes nothing.
pub proof fn lemma_filter_keeps_accepted(query: EventQuery, events: Seq<EconomicEvent>)
    ensures
        events.filter(query.predicate()).len() <= events.len(),
        forall|i: int|
            0 <= i < events.filter(query.predicate()).len() ==> query.accepts(
                #[trigger] events.filter(query.predicate())[i],
            ),
        forall|i: int|
            0 <= i < events.len() && query.accepts(events[i]) ==> events.filter(
                query.predicate(),
            ).contains(#[trigger] events[i]),
{
    broadcast use vstd::seq_lib::group_filter_ensures;

    assert forall|i: int| 0 <= i < events.filter(query.predicate()).len() implies query.accepts(
        #[trigger] events.filter(query.predicate())[i],
    ) by {
        assert(query.predicate()(events.filter(query.predicate())[i]));
    }
    assert forall|i: int| 0 <= i < events.len() && query.accepts(events[i]) implies events.filter(
        query.predicate(),
    ).contains(#[trigger] events[i]) by {
        assert(query.predicate()(events[i]));
    }
}

} // verus!
