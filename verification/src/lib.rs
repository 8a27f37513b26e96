//! Calendar grid computation for date-picker widgets.
//!
//! Given a year/month/first-weekday configuration and an optional selected
//! date or date range, the builders in [`view`] produce fully classified
//! grids: a fixed 6-by-7 month grid of dates, a week-oriented variant over
//! ISO week identifiers, and flat month-of-year / year-of-decade lists.
//! Rendering, event wiring and locale-aware label formatting are left to
//! the embedding application; every structure produced here is plain data.

pub mod date;
pub mod selection;
pub mod view;
