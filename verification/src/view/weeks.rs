//! The week grid: a month grid driven by a selection over ISO week
//! identifiers rather than dates.
//!
//! A selection over ISO weeks is re-expressed as a selection over the
//! representative date of each week — the day of that ISO week bearing
//! the configured first weekday — and the month grid builder does the
//! rest, with week numbers forced on. Reading a representative date back
//! through [`CalendarDate::iso_week`] recovers the original identifier.

use vstd::prelude::*;

use crate::date::{
    day_facts, iso_week_date_of, iso_week_num_of, iso_year_of, weekday_rank_of, CalendarDate,
    IsoWeekId, Weekday, YEAR_MAX, YEAR_MIN,
};
use crate::date::lemma_weekday_rank_add;
use crate::selection::{selection_of_pair_spec, Selection};
use crate::view::month::{grid_matches, week_number, MonthGrid, MonthView};
use vstd::arithmetic::div_mod::lemma_small_mod;

verus! {

/// The representative date of ISO week `id` under `fw`: the day of that
/// week bearing `fw`, which still lies in the week `id` names.
pub open spec fn week_rep_ok(id: IsoWeekId, fw: Weekday, d: CalendarDate) -> bool {
    &&& d@.days == iso_week_date_of(id.year as int, id.week as int, fw.monday_rank())
    &&& iso_year_of(d@.days) == id.year
    &&& iso_week_num_of(d@.days) == id.week
    &&& weekday_rank_of(d@.days) == fw.monday_rank()
    &&& day_facts(d@)
}

/// The date selection that re-expresses a selection over ISO weeks:
/// every endpoint is replaced by its representative date, and a range is
/// re-normalized over the mapped endpoints.
pub open spec fn mapped_selection_ok(
    sel: Selection<IsoWeekId>,
    fw: Weekday,
    r: Selection<CalendarDate>,
) -> bool {
    match sel {
        Selection::Empty => r == Selection::<CalendarDate>::Empty,
        Selection::Single(id) => (r matches Selection::Single(d) && week_rep_ok(id, fw, d)),
        Selection::Range(a, b) => exists|da: CalendarDate, db: CalendarDate|
            #[trigger] week_rep_ok(a, fw, da) && #[trigger] week_rep_ok(b, fw, db) && r
                == selection_of_pair_spec(da, db),
    }
}

/// Whether every endpoint of a week selection is sure to have a
/// representative date: its year within range and its week number one
/// every ISO year has. (Week 53 can still map successfully in the years
/// that have it.)
pub open spec fn week_sel_surely_mappable(sel: Selection<IsoWeekId>) -> bool {
    match sel {
        Selection::Empty => true,
        Selection::Single(id) => YEAR_MIN <= id.year <= YEAR_MAX && 1 <= id.week <= 52,
        Selection::Range(a, b) => YEAR_MIN <= a.year <= YEAR_MAX && 1 <= a.week <= 52 && YEAR_MIN
            <= b.year <= YEAR_MAX && 1 <= b.week <= 52,
    }
}

/// Configuration of a week grid: as a month view, but selecting ISO
/// weeks.
pub struct WeeksView {
    pub(crate) year: i32,
    pub(crate) month: u32,
    pub(crate) selection: Selection<IsoWeekId>,
    pub(crate) first_weekday: Weekday,
    pub(crate) show_weekdays: bool,
    pub(crate) locale: String,
}

/// The mathematical content of a `WeeksView`.
pub ghost struct WeeksViewV {
    pub year: int,
    pub month: int,
    pub selection: Selection<IsoWeekId>,
    pub first_weekday: Weekday,
    pub show_weekdays: bool,
    pub locale: Seq<char>,
}

impl View for WeeksView {
    type V = WeeksViewV;

    closed spec fn view(&self) -> WeeksViewV {
        WeeksViewV {
            year: self.year as int,
            month: self.month as int,
            selection: self.selection,
            first_weekday: self.first_weekday,
            show_weekdays: self.show_weekdays,
            locale: self.locale@,
        }
    }
}

impl WeeksView {
    /// A week view of the given year and month (1 is January), with no
    /// selection, weeks starting on Monday, the weekday header switched
    /// off, and the locale tag `en-US`.
    pub fn new(year: i32, month: u32) -> (r: WeeksView)
        ensures
            r@.year == year,
            r@.month == month,
            r@.selection == Selection::<IsoWeekId>::Empty,
            r@.first_weekday == Weekday::Mon,
            !r@.show_weekdays,
            r@.locale == "en-US"@,
    {
        WeeksView {
            year,
            month,
            selection: Selection::Empty,
            first_weekday: Weekday::Mon,
            show_weekdays: false,
            locale: "en-US".to_string(),
        }
    }

    /// This view with a single selected ISO week.
    pub fn with_selected(self, week: IsoWeekId) -> (r: WeeksView)
        ensures
            r@ == (WeeksViewV { selection: Selection::Single(week), ..self@ }),
    {
        WeeksView { selection: Selection::Single(week), ..self }
    }

    /// This view with the range between the two ISO weeks selected; the
    /// endpoints may come in either order, and an equal pair selects the
    /// single week.
    pub fn with_selection(self, start: IsoWeekId, end: IsoWeekId) -> (r: WeeksView)
        ensures
            r@ == (WeeksViewV { selection: selection_of_pair_spec(start, end), ..self@ }),
    {
        let selection = Selection::of_pair(start, end);
        WeeksView { selection, ..self }
    }

    /// This view with the selection described by two optional endpoints:
    /// neither endpoint clears the selection, one endpoint selects that
    /// week alone, two endpoints select the normalized range.
    pub fn maybe_with_selection(
        self,
        start: Option<IsoWeekId>,
        end: Option<IsoWeekId>,
    ) -> (r: WeeksView)
        ensures
            r@ == (WeeksViewV {
                selection: crate::selection::selection_of_bounds_spec(start, end),
                ..self@
            }),
    {
        let selection = Selection::of_bounds(start, end);
        WeeksView { selection, ..self }
    }

    /// This view with weeks starting on the given weekday.
    pub fn with_first_weekday(self, weekday: Weekday) -> (r: WeeksView)
        ensures
            r@ == (WeeksViewV { first_weekday: weekday, ..self@ }),
    {
        WeeksView { first_weekday: weekday, ..self }
    }

    /// This view with the given locale tag, kept for the embedding
    /// application's label formatting.
    pub fn with_locale(self, locale: String) -> (r: WeeksView)
        ensures
            r@ == (WeeksViewV { locale: locale@, ..self@ }),
    {
        WeeksView { locale, ..self }
    }

    /// This view with the weekday header row switched on.
    pub fn show_weekdays(self) -> (r: WeeksView)
        ensures
            r@ == (WeeksViewV { show_weekdays: true, ..self@ }),
    {
        WeeksView { show_weekdays: true, ..self }
    }

    /// The fully classified grid this view describes: the month grid of
    /// the configured month, with week numbers forced on, classified
    /// against the date selection that represents the week selection.
    ///
    /// Returns `None` when the month is not in `1..=12`, the year lies
    /// outside `YEAR_MIN..=YEAR_MAX`, or an endpoint of the selection
    /// names no representable week.
    pub fn into_grid(self) -> (r: Option<MonthGrid>)
        ensures
            (1 <= self@.month <= 12 && YEAR_MIN <= self@.year <= YEAR_MAX
                && week_sel_surely_mappable(self@.selection)) ==> r is Some,
            r matches Some(g) ==> {
                &&& 1 <= self@.month <= 12
                &&& YEAR_MIN <= self@.year <= YEAR_MAX
                &&& exists|msel: Selection<CalendarDate>|
                    #[trigger] mapped_selection_ok(self@.selection, self@.first_weekday, msel)
                        && grid_matches(
                        g,
                        self@.year,
                        self@.month,
                        msel,
                        self@.first_weekday,
                        true,
                        self@.show_weekdays,
                    )
            },
    {
        let ghost v = self@;
        let fw = self.first_weekday;
        let base = MonthView::new(self.year, self.month).with_first_weekday(
            fw,
        ).with_locale(self.locale).show_week_numbers();
        let base = if self.show_weekdays {
            base.show_weekdays()
        } else {
            base
        };
        let month_view = match self.selection {
            Selection::Empty => base,
            Selection::Single(id) => {
                match CalendarDate::iso_week_start_date(id, fw) {
                    Option::Some(d) => {
                        proof {
                            assert(week_rep_ok(id, fw, d));
                        }
                        base.with_selected(d)
                    },
                    Option::None => {
                        return Option::None;
                    },
                }
            },
            Selection::Range(a, b) => {
                let da = match CalendarDate::iso_week_start_date(a, fw) {
                    Option::Some(d) => d,
                    Option::None => {
                        return Option::None;
                    },
                };
                let db = match CalendarDate::iso_week_start_date(b, fw) {
                    Option::Some(d) => d,
                    Option::None => {
                        return Option::None;
                    },
                };
                proof {
                    assert(week_rep_ok(a, fw, da));
                    assert(week_rep_ok(b, fw, db));
                }
                base.with_selection(da, db)
            },
        };
        proof {
            assert(mapped_selection_ok(v.selection, v.first_weekday, month_view@.selection));
        }
        month_view.into_grid()
    }
}

/// Law (week round trip): the representative date of an ISO week, read
/// back through [`CalendarDate::iso_week`], is the original identifier.
pub fn iso_week_round_trip(id: IsoWeekId, first_weekday: Weekday) -> (r: Option<IsoWeekId>)
    ensures
        (YEAR_MIN <= id.year <= YEAR_MAX && 1 <= id.week <= 52) ==> r is Some,
        r matches Some(back) ==> back == id,
{
    match CalendarDate::iso_week_start_date(id, first_weekday) {
        Option::Some(d) => Option::Some(d.iso_week()),
        Option::None => Option::None,
    }
}

/// Law (week label round trip): the representative date of an ISO week,
/// read back through [`week_number`] at the same first weekday, yields
/// the original week number — for first weekdays Monday through
/// Thursday. (From Friday on, the label shift of `week_number` crosses
/// into the following ISO week, and the label differs.)
pub fn iso_week_label_round_trip(id: IsoWeekId, first_weekday: Weekday) -> (r: Option<u32>)
    requires
        first_weekday.monday_rank() <= 3,
    ensures
        (YEAR_MIN <= id.year <= YEAR_MAX && 1 <= id.week <= 52) ==> r is Some,
        r matches Some(w) ==> w == id.week,
{
    match CalendarDate::iso_week_start_date(id, first_weekday) {
        Option::Some(d) => {
            let w = week_number(&d, first_weekday);
            proof {
                let fwr = first_weekday.monday_rank();
                lemma_weekday_rank_add(d@.days, fwr);
                lemma_small_mod((2 * fwr) as nat, 7nat);
                assert(weekday_rank_of(d@.days + fwr) == 2 * fwr);
                assert(d@.days + fwr - weekday_rank_of(d@.days + fwr) == d@.days - fwr);
            }
            Option::Some(w)
        },
        Option::None => Option::None,
    }
}

} // verus!
