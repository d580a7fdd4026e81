//! Economic-calendar records: a carry-forward table parser that turns the
//! rows of a calendar page into fully resolved events, and a query filter
//! over the resulting sequence.

pub mod currency;
pub mod date;
pub mod event;
pub mod impact;
pub mod laws;
pub mod page;
pub mod parser;
pub mod query;
pub mod text;
pub mod tools;

pub use currency::resolve_currency;
pub use date::{Date, LocalDateTime, TimeOfDay};
pub use event::EconomicEvent;
pub use impact::Impact;
pub use parser::{CalendarParser, CarryState, RowFields};
pub use query::EventQuery;
pub use tools::{EventResult, QueryEventsParams, WeekAroundParams};
