//! The year list: a contiguous range of years, flagged against a
//! selected year and an optional enabled bound.

use vstd::prelude::*;

use crate::view::ListEntry;

verus! {

/// Whether a year is to be rendered inactive: it lies below the lower or
/// above the upper bound, where a bound is given.
pub open spec fn year_disabled(min: Option<i32>, max: Option<i32>, y: int) -> bool {
    ||| (min matches Option::Some(mn) && y < mn)
    ||| (max matches Option::Some(mx) && y > mx)
}

/// Configuration of a year list: the inclusive year range to show, an
/// optional selected year, and optional bounds outside which years are
/// shown disabled.
pub struct YearsView {
    pub(crate) from: i32,
    pub(crate) to: i32,
    pub(crate) selected: Option<i32>,
    pub(crate) min: Option<i32>,
    pub(crate) max: Option<i32>,
}

/// The mathematical content of a `YearsView`.
pub ghost struct YearsViewV {
    pub from: int,
    pub to: int,
    pub selected: Option<i32>,
    pub min: Option<i32>,
    pub max: Option<i32>,
}

impl View for YearsView {
    type V = YearsViewV;

    closed spec fn view(&self) -> YearsViewV {
        YearsViewV {
            from: self.from as int,
            to: self.to as int,
            selected: self.selected,
            min: self.min,
            max: self.max,
        }
    }
}

impl YearsView {
    /// A year list over the inclusive range `from..=to`, with nothing
    /// selected and no bounds.
    pub fn new(from: i32, to: i32) -> (r: YearsView)
        ensures
            r@.from == from,
            r@.to == to,
            r@.selected is None,
            r@.min is None,
            r@.max is None,
    {
        YearsView { from, to, selected: Option::None, min: Option::None, max: Option::None }
    }

    /// The decade starting at `start`: the years `start - 1 ..= start + 10`,
    /// with the years of the decade proper (`start ..= start + 9`) enabled
    /// and the surrounding two years shown disabled for visual continuity
    /// across decade boundaries.
    pub fn decade_from(start: i32) -> (r: YearsView)
        requires
            i32::MIN + 1 <= start <= i32::MAX - 10,
        ensures
            r@.from == start - 1,
            r@.to == start + 10,
            r@.selected is None,
            r@.min == Option::Some(start),
            r@.max == Option::Some((start + 9) as i32),
    {
        YearsView {
            from: start - 1,
            to: start + 10,
            selected: Option::None,
            min: Option::Some(start),
            max: Option::Some(start + 9),
        }
    }

    /// This view with the given year selected.
    pub fn with_selected(self, year: i32) -> (r: YearsView)
        ensures
            r@ == (YearsViewV { selected: Option::Some(year), ..self@ }),
    {
        YearsView { selected: Option::Some(year), ..self }
    }

    /// The years `from..=to` in ascending order, each flagged selected
    /// exactly when it equals the selected year, and disabled exactly
    /// when it falls outside the `[min, max]` bound.
    pub fn into_grid(self) -> (r: Vec<ListEntry<i32>>)
        ensures
            self@.from > self@.to ==> r@.len() == 0,
            self@.from <= self@.to ==> r@.len() == self@.to - self@.from + 1,
            forall|i: int|
                0 <= i < r@.len() ==> {
                    let e = #[trigger] r@[i];
                    &&& e.value == self@.from + i
                    &&& e.selected == (self@.selected == Option::Some((self@.from + i) as i32))
                    &&& e.disabled == year_disabled(self@.min, self@.max, self@.from + i)
                },
    {
        let ghost v = self@;
        let mut entries: Vec<ListEntry<i32>> = Vec::new();
        if self.from > self.to {
            return entries;
        }
        let total: u64 = (self.to as i64 - self.from as i64 + 1) as u64;
        let mut n: u64 = 0;
        while n < total
            invariant
                n <= total,
                total == v.to - v.from + 1,
                v.from <= v.to,
                i32::MIN <= v.from <= v.to <= i32::MAX,
                self@ == v,
                entries@.len() == n,
                forall|i: int|
                    0 <= i < n ==> {
                        let e = #[trigger] entries@[i];
                        &&& e.value == v.from + i
                        &&& e.selected == (v.selected == Option::Some((v.from + i) as i32))
                        &&& e.disabled == year_disabled(v.min, v.max, v.from + i)
                    },
            decreases total - n,
        {
            let year: i32 = (self.from as i64 + n as i64) as i32;
            let selected = match self.selected {
                Option::Some(sy) => sy == year,
                Option::None => false,
            };
            let below = match self.min {
                Option::Some(mn) => year < mn,
                Option::None => false,
            };
            let above = match self.max {
                Option::Some(mx) => year > mx,
                Option::None => false,
            };
            entries.push(ListEntry { value: year, selected, disabled: below || above });
            n += 1;
        }
        entries
    }
}

} // verus!
