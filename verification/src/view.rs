//! The grid builders: month, week, month-list and year-list views.

use vstd::prelude::*;

pub mod month;
pub mod months;
pub mod weeks;
pub mod years;

verus! {

/// One entry of a flat list grid (months of a year, years of a decade):
/// a value, whether it is the selected one, and whether it lies outside
/// an optional bound and is to be rendered inactive.
pub struct ListEntry<T> {
    pub value: T,
    pub selected: bool,
    pub disabled: bool,
}

} // verus!
