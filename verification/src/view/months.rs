//! The month list: the twelve months of a year, flagged against a
//! selected month.

use vstd::prelude::*;

use crate::view::ListEntry;

verus! {

/// Configuration of a month list: an optional selected month number and
/// a locale tag for the embedding application's label formatting.
pub struct MonthsView {
    pub(crate) selected: Option<u32>,
    pub(crate) locale: String,
}

/// The mathematical content of a `MonthsView`.
pub ghost struct MonthsViewV {
    pub selected: Option<u32>,
    pub locale: Seq<char>,
}

impl View for MonthsView {
    type V = MonthsViewV;

    closed spec fn view(&self) -> MonthsViewV {
        MonthsViewV { selected: self.selected, locale: self.locale@ }
    }
}

impl MonthsView {
    /// A month list with nothing selected and the locale tag `en-US`.
    pub fn new() -> (r: MonthsView)
        ensures
            r@.selected is None,
            r@.locale == "en-US"@,
    {
        MonthsView { selected: Option::None, locale: "en-US".to_string() }
    }

    /// This view with the given month number selected.
    pub fn with_selected(self, month: u32) -> (r: MonthsView)
        ensures
            r@ == (MonthsViewV { selected: Option::Some(month), ..self@ }),
    {
        MonthsView { selected: Option::Some(month), ..self }
    }

    /// The twelve months, in order 1 through 12, each flagged selected
    /// exactly when it equals the selected month; no bound applies, so no
    /// entry is disabled.
    pub fn into_grid(self) -> (r: Vec<ListEntry<u32>>)
        ensures
            r@.len() == 12,
            forall|i: int|
                0 <= i < 12 ==> {
                    let e = #[trigger] r@[i];
                    &&& e.value == i + 1
                    &&& e.selected == (self@.selected == Option::Some((i + 1) as u32))
                    &&& !e.disabled
                },
    {
        let ghost v = self@;
        let mut entries: Vec<ListEntry<u32>> = Vec::new();
        let mut m: u32 = 1;
        while m <= 12
            invariant
                1 <= m <= 13,
                entries@.len() == m - 1,
                self@ == v,
                forall|i: int|
                    0 <= i < m - 1 ==> {
                        let e = #[trigger] entries@[i];
                        &&& e.value == i + 1
                        &&& e.selected == (v.selected == Option::Some((i + 1) as u32))
                        &&& !e.disabled
                    },
            decreases 13 - m,
        {
            let selected = match self.selected {
                Option::Some(sm) => sm == m,
                Option::None => false,
            };
            entries.push(ListEntry { value: m, selected, disabled: false });
            m += 1;
        }
        entries
    }
}

} // verus!
