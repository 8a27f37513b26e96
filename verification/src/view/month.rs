//! The month grid: a fixed 6-by-7 grid of dates covering one month,
//! with per-cell and per-row selection classification.

use vstd::prelude::*;

use crate::date::{
    day_facts, day_num_of, days_in_month_of, iso_week_num_of, next_ymd, valid_ymd,
    weekday_rank_of, CalendarDate, Weekday, DAY_NUM_MIN, YEAR_MAX, YEAR_MIN,
};
use crate::date::lemma_next_ymd_valid;
use crate::selection::{
    classify_interval_spec, classify_point_spec, selection_of_bounds_spec, selection_of_pair_spec,
    Intersection, Selection,
};
use vstd::arithmetic::div_mod::{
    lemma_fundamental_div_mod, lemma_mod_multiples_vanish, lemma_small_mod,
};

verus! {

/// One cell of a month grid: a date, whether it belongs to the displayed
/// month (rather than spilling over from an adjacent month), and how it
/// relates to the current selection.
pub struct GridCell {
    pub date: CalendarDate,
    pub in_month: bool,
    pub classification: Option<Intersection>,
}

/// One week row of a month grid: seven consecutive cells, the row's own
/// classification against the selection (over the interval from its first
/// to its last date), and an optional ISO week number label.
pub struct MonthRow {
    pub cells: Vec<GridCell>,
    pub row_classification: Option<Intersection>,
    pub week_number: Option<u32>,
}

/// A fully classified month grid: six rows of seven cells, and an
/// optional header of the seven weekdays in display order.
pub struct MonthGrid {
    pub rows: Vec<MonthRow>,
    pub weekday_header: Option<Vec<Weekday>>,
}

/// Number of leading cells the grid shows before the first of the month:
/// the offset from the configured week start, bumped to a full week when
/// the month starts exactly on the configured first weekday, so that the
/// grid always shows at least one day of the previous month.
pub open spec fn leading_offset(wd_rank: int, fw_rank: int) -> int {
    let d = if wd_rank >= fw_rank {
        wd_rank - fw_rank
    } else {
        wd_rank - fw_rank + 7
    };
    if d == 0 {
        7
    } else {
        d
    }
}

/// Day number of the grid's first cell, given the day number of the first
/// of the month and the first weekday's rank.
pub open spec fn grid_start_day_num(first_days: int, fw_rank: int) -> int {
    first_days - leading_offset(weekday_rank_of(first_days), fw_rank)
}

/// Law: the grid's first cell falls on the configured first weekday.
pub proof fn lemma_grid_start_weekday(n: int, fw_rank: int)
    requires
        0 <= fw_rank < 7,
    ensures
        weekday_rank_of(grid_start_day_num(n, fw_rank)) == fw_rank,
{
    let wr = weekday_rank_of(n);
    let lead = leading_offset(wr, fw_rank);
    let q = (n - 1) / 7;
    lemma_fundamental_div_mod(n - 1, 7);
    if wr - fw_rank >= 1 {
        assert(grid_start_day_num(n, fw_rank) - 1 == 7 * q + fw_rank);
        lemma_mod_multiples_vanish(q, fw_rank, 7);
    } else {
        assert(grid_start_day_num(n, fw_rank) - 1 == 7 * (q - 1) + fw_rank);
        lemma_mod_multiples_vanish(q - 1, fw_rank, 7);
    }
    lemma_small_mod(fw_rank as nat, 7nat);
}

/// What one grid cell holds: the date with day number `n`, the spillover
/// flag, and the exact classification of that date against the selection.
pub open spec fn cell_matches(
    c: GridCell,
    n: int,
    month: int,
    sel: Selection<CalendarDate>,
) -> bool {
    &&& c.date@.days == n
    &&& day_facts(c.date@)
    &&& c.in_month == (c.date@.month == month)
    &&& c.classification == classify_point_spec(sel, c.date)
}

/// What one grid row holds: seven consecutive cells from `row_start`, the
/// row classified as an interval from its first to its last date, and an
/// ISO week label exactly when week numbers are requested.
pub open spec fn row_matches(
    r: MonthRow,
    row_start: int,
    month: int,
    sel: Selection<CalendarDate>,
    first_weekday: Weekday,
    show_week_numbers: bool,
) -> bool {
    &&& r.cells@.len() == 7
    &&& forall|j: int|
        0 <= j < 7 ==> cell_matches(#[trigger] r.cells@[j], row_start + j, month, sel)
    &&& r.row_classification == classify_interval_spec(
        sel,
        r.cells@[0].date,
        r.cells@[6].date,
    )
    &&& show_week_numbers ==> (r.week_number matches Some(wn) && wn == iso_week_num_of(
        row_start + first_weekday.monday_rank(),
    ))
    &&& !show_week_numbers ==> r.week_number is None
}

/// The cell at flat position `k` (row `k / 7`, column `k % 7`).
pub open spec fn grid_cell(g: MonthGrid, k: int) -> GridCell {
    g.rows@[k / 7].cells@[k % 7]
}

/// How the displayed month sits inside the grid: the first of the month
/// at flat position `nf - gs`, between 1 and 7, and the cells belonging
/// to the month exactly the `days_in_month_of` positions from there —
/// every day of the month is shown, flanked by spillover cells of the
/// adjacent months.
pub open spec fn grid_leading_matches(g: MonthGrid, year: int, month: int, nf: int, gs: int) -> bool {
    let k0 = nf - gs;
    &&& 1 <= k0 <= 7
    &&& grid_cell(g, k0).date@.year == year
    &&& grid_cell(g, k0).date@.month == month
    &&& grid_cell(g, k0).date@.day == 1
    &&& forall|k: int|
        0 <= k < 42 ==> ((#[trigger] grid_cell(g, k)).date@.month == month <==> k0 <= k < k0
            + days_in_month_of(year, month))
    &&& forall|k: int|
        k0 <= k < k0 + days_in_month_of(year, month) && k < 42 ==> (#[trigger] grid_cell(
            g,
            k,
        )).date@.day == 1 + k - k0
}

/// Rank of a weekday counting from Saturday, the earliest weekday any
/// locale uses to start a displayed week: Saturday is 0, Friday is 6.
pub open spec fn earliest_rank(weekday: Weekday) -> int {
    match weekday {
        Weekday::Sat => 0,
        Weekday::Sun => 1,
        Weekday::Mon => 2,
        Weekday::Tue => 3,
        Weekday::Wed => 4,
        Weekday::Thu => 5,
        Weekday::Fri => 6,
    }
}

/// Number of days `weekday` lies after Saturday, the earliest weekday any
/// locale uses to start a displayed week.
pub fn days_since_earliest_weekday(weekday: Weekday) -> (r: u32)
    ensures
        r == earliest_rank(weekday),
{
    match weekday {
        Weekday::Sat => 0,
        Weekday::Sun => 1,
        Weekday::Mon => 2,
        Weekday::Tue => 3,
        Weekday::Wed => 4,
        Weekday::Thu => 5,
        Weekday::Fri => 6,
    }
}

/// Distance in days from the start of the displayed week (under the
/// given first weekday) to a date whose weekday has rank `wd_rank` from
/// Monday; always in `0..=6`.
pub open spec fn days_since_spec(wd_rank: int, fw_rank: int) -> int {
    let d = wd_rank - fw_rank;
    if d >= 0 {
        d
    } else {
        d + 7
    }
}

/// Distance in days from the start of `date`'s displayed week (under
/// `first_weekday`) back to `date`; always in `0..=6`.
pub fn days_since_start_of_week(date: &CalendarDate, first_weekday: Weekday) -> (r: i32)
    ensures
        r == days_since_spec(weekday_rank_of(date@.days), first_weekday.monday_rank()),
        0 <= r <= 6,
{
    let a = days_since_earliest_weekday(date.weekday());
    let b = days_since_earliest_weekday(first_weekday);
    if a >= b {
        (a - b) as i32
    } else {
        (a + 7 - b) as i32
    }
}

/// The weekday of the week start reached by stepping back
/// `days_since_spec` days.
proof fn lemma_week_start_weekday(n: int, fw_rank: int)
    requires
        0 <= fw_rank < 7,
    ensures
        weekday_rank_of(n - days_since_spec(weekday_rank_of(n), fw_rank)) == fw_rank,
{
    let wr = weekday_rank_of(n);
    let ds = days_since_spec(wr, fw_rank);
    let q = (n - 1) / 7;
    lemma_fundamental_div_mod(n - 1, 7);
    if wr - fw_rank >= 0 {
        assert(n - ds - 1 == 7 * q + fw_rank);
        lemma_mod_multiples_vanish(q, fw_rank, 7);
    } else {
        assert(n - ds - 1 == 7 * (q - 1) + fw_rank);
        lemma_mod_multiples_vanish(q - 1, fw_rank, 7);
    }
    lemma_small_mod(fw_rank as nat, 7nat);
}

/// The start of `date`'s displayed week under `first_weekday`: `date`
/// moved back by `days_since_start_of_week`. `None` only when that start
/// would fall before the supported day range.
pub fn start_of_week(date: &CalendarDate, first_weekday: Weekday) -> (r: Option<CalendarDate>)
    ensures
        r is Some <==> DAY_NUM_MIN <= date@.days - days_since_spec(
            weekday_rank_of(date@.days),
            first_weekday.monday_rank(),
        ),
        r matches Some(c) ==> {
            &&& c@.days == date@.days - days_since_spec(
                weekday_rank_of(date@.days),
                first_weekday.monday_rank(),
            )
            &&& day_facts(c@)
            &&& weekday_rank_of(c@.days) == first_weekday.monday_rank()
        },
{
    date.recall_facts();
    let off = days_since_start_of_week(date, first_weekday);
    proof {
        lemma_week_start_weekday(date@.days, first_weekday.monday_rank());
    }
    date.add_days(-off)
}

/// The ISO week number shown as the label of the week containing `date`,
/// adjusted to the first-weekday convention: the date is shifted forward
/// by the first weekday's offset from Monday before its ISO week is
/// taken.
pub fn week_number(date: &CalendarDate, first_weekday: Weekday) -> (r: u32)
    ensures
        r == iso_week_num_of(date@.days + first_weekday.monday_rank()),
        r == iso_week_num_of(
            date@.days + first_weekday.monday_rank() - weekday_rank_of(
                date@.days + first_weekday.monday_rank(),
            ),
        ),
        1 <= r <= 53,
{
    date.iso_week_shifted(first_weekday.num_days_from_monday()).week
}

/// The full contract of a built month grid.
pub open spec fn grid_matches(
    g: MonthGrid,
    year: int,
    month: int,
    sel: Selection<CalendarDate>,
    first_weekday: Weekday,
    show_week_numbers: bool,
    show_weekdays: bool,
) -> bool {
    let nf = day_num_of(year, month, 1);
    let gs = grid_start_day_num(nf, first_weekday.monday_rank());
    &&& g.rows@.len() == 6
    &&& forall|i: int|
        0 <= i < 6 ==> row_matches(
            #[trigger] g.rows@[i],
            gs + 7 * i,
            month,
            sel,
            first_weekday,
            show_week_numbers,
        )
    &&& show_weekdays ==> (g.weekday_header matches Some(h) && h@.len() == 7 && forall|j: int|
        0 <= j < 7 ==> (#[trigger] h@[j]).monday_rank() == weekday_rank_of(gs + j))
    &&& !show_weekdays ==> g.weekday_header is None
    &&& grid_leading_matches(g, year, month, nf, gs)
}

/// Configuration of a month grid: the displayed year and month, the
/// selection, the first weekday of displayed weeks, display flags and a
/// locale tag for the embedding application's label formatting.
pub struct MonthView {
    pub(crate) year: i32,
    pub(crate) month: u32,
    pub(crate) selection: Selection<CalendarDate>,
    pub(crate) first_weekday: Weekday,
    pub(crate) show_week_numbers: bool,
    pub(crate) show_weekdays: bool,
    pub(crate) locale: String,
}

/// The mathematical content of a `MonthView`.
pub ghost struct MonthViewV {
    pub year: int,
    pub month: int,
    pub selection: Selection<CalendarDate>,
    pub first_weekday: Weekday,
    pub show_week_numbers: bool,
    pub show_weekdays: bool,
    pub locale: Seq<char>,
}

impl View for MonthView {
    type V = MonthViewV;

    closed spec fn view(&self) -> MonthViewV {
        MonthViewV {
            year: self.year as int,
            month: self.month as int,
            selection: self.selection,
            first_weekday: self.first_weekday,
            show_week_numbers: self.show_week_numbers,
            show_weekdays: self.show_weekdays,
            locale: self.locale@,
        }
    }
}

impl MonthView {
    /// A month view of the given year and month (1 is January), with no
    /// selection, weeks starting on Monday, week numbers and the weekday
    /// header switched off, and the locale tag `en-US`.
    pub fn new(year: i32, month: u32) -> (r: MonthView)
        ensures
            r@.year == year,
            r@.month == month,
            r@.selection == Selection::<CalendarDate>::Empty,
            r@.first_weekday == Weekday::Mon,
            !r@.show_week_numbers,
            !r@.show_weekdays,
            r@.locale == "en-US"@,
    {
        MonthView {
            year,
            month,
            selection: Selection::Empty,
            first_weekday: Weekday::Mon,
            show_week_numbers: false,
            show_weekdays: false,
            locale: "en-US".to_string(),
        }
    }

    /// This view with a single selected date.
    pub fn with_selected(self, date: CalendarDate) -> (r: MonthView)
        ensures
            r@ == (MonthViewV { selection: Selection::Single(date), ..self@ }),
    {
        MonthView { selection: Selection::Single(date), ..self }
    }

    /// This view with the range between the two dates selected; the
    /// endpoints may come in either order, and an equal pair selects the
    /// single date.
    pub fn with_selection(self, start: CalendarDate, end: CalendarDate) -> (r: MonthView)
        ensures
            r@ == (MonthViewV { selection: selection_of_pair_spec(start, end), ..self@ }),
    {
        let selection = Selection::of_pair(start, end);
        MonthView { selection, ..self }
    }

    /// This view with the selection described by two optional endpoints:
    /// neither endpoint clears the selection, one endpoint selects that
    /// date alone, two endpoints select the normalized range.
    pub fn maybe_with_selection(
        self,
        start: Option<CalendarDate>,
        end: Option<CalendarDate>,
    ) -> (r: MonthView)
        ensures
            r@ == (MonthViewV { selection: selection_of_bounds_spec(start, end), ..self@ }),
    {
        let selection = Selection::of_bounds(start, end);
        MonthView { selection, ..self }
    }

    /// This view with weeks starting on the given weekday.
    pub fn with_first_weekday(self, weekday: Weekday) -> (r: MonthView)
        ensures
            r@ == (MonthViewV { first_weekday: weekday, ..self@ }),
    {
        MonthView { first_weekday: weekday, ..self }
    }

    /// This view with the given locale tag, kept for the embedding
    /// application's label formatting.
    pub fn with_locale(self, locale: String) -> (r: MonthView)
        ensures
            r@ == (MonthViewV { locale: locale@, ..self@ }),
    {
        MonthView { locale, ..self }
    }

    /// This view with per-row ISO week numbers switched on.
    pub fn show_week_numbers(self) -> (r: MonthView)
        ensures
            r@ == (MonthViewV { show_week_numbers: true, ..self@ }),
    {
        MonthView { show_week_numbers: true, ..self }
    }

    /// This view with the weekday header row switched on.
    pub fn show_weekdays(self) -> (r: MonthView)
        ensures
            r@ == (MonthViewV { show_weekdays: true, ..self@ }),
    {
        MonthView { show_weekdays: true, ..self }
    }
}

/// The 42 consecutive dates a grid shows, starting at day number `gs`.
spec fn dates_ok(s: Seq<CalendarDate>, gs: int) -> bool {
    forall|k: int| 0 <= k < s.len() ==> (#[trigger] s[k])@.days == gs + k && day_facts(s[k]@)
}

/// Consecutive entries are calendar successors of one another.
spec fn dates_linked(s: Seq<CalendarDate>) -> bool {
    forall|k: int|
        0 <= k && k + 1 < s.len() ==> next_ymd(
            (#[trigger] s[k])@.year,
            s[k]@.month,
            s[k]@.day,
        ) == (s[k + 1]@.year, s[k + 1]@.month, s[k + 1]@.day)
}

/// In a linked run of dates whose position `k0` holds the first of a
/// month, every earlier position within the preceding week holds a day
/// of the immediately preceding month, counting down from its last day.
proof fn lemma_cells_before_first(s: Seq<CalendarDate>, k0: int, k: int)
    requires
        0 <= k < k0 < s.len(),
        k0 - k <= 7,
        forall|i: int| 0 <= i < s.len() ==> day_facts((#[trigger] s[i])@),
        dates_linked(s),
        s[k0]@.day == 1,
    ensures
        s[k]@.month == (if s[k0]@.month == 1 {
            12int
        } else {
            s[k0]@.month - 1
        }),
        s[k]@.year == (if s[k0]@.month == 1 {
            s[k0]@.year - 1
        } else {
            s[k0]@.year
        }),
        s[k]@.day == days_in_month_of(s[k]@.year, s[k]@.month) - (k0 - 1 - k),
    decreases k0 - k,
{
    if k == k0 - 1 {
        assert(next_ymd(s[k]@.year, s[k]@.month, s[k]@.day) == (
            s[k0]@.year,
            s[k0]@.month,
            s[k0]@.day,
        ));
    } else {
        lemma_cells_before_first(s, k0, k + 1);
        assert(next_ymd(s[k]@.year, s[k]@.month, s[k]@.day) == (
            s[k + 1]@.year,
            s[k + 1]@.month,
            s[k + 1]@.day,
        ));
    }
}

/// The 42 consecutive dates starting at day number `gs_num`.
fn collect_dates(gs_num: i32) -> (dates: Vec<CalendarDate>)
    requires
        -95000007 <= gs_num <= 95000000,
    ensures
        dates@.len() == 42,
        dates_ok(dates@, gs_num as int),
        dates_linked(dates@),
{
    let ghost gs: int = gs_num as int;
    let mut dates: Vec<CalendarDate> = Vec::new();
    let mut k: usize = 0;
    while k < 42
        invariant
            k <= 42,
            dates@.len() == k,
            -95000007 <= gs_num <= 95000000,
            gs == gs_num as int,
            dates_ok(dates@, gs),
            dates_linked(dates@),
        decreases 42 - k,
    {
        let c = match CalendarDate::from_day_number(gs_num + k as i32) {
            Option::Some(c) => c,
            Option::None => {
                proof {
                    assert(false);
                }
                return Vec::new();
            },
        };
        proof {
            if k > 0 {
                let prev = dates@[k as int - 1]@;
                lemma_next_ymd_valid(prev.year, prev.month, prev.day);
                assert(next_ymd(prev.year, prev.month, prev.day) == (c@.year, c@.month, c@.day));
            }
        }
        dates.push(c);
        k += 1;
    }
    dates
}

/// The six classified rows over the given 42 dates.
fn build_rows(
    dates: &Vec<CalendarDate>,
    sel: Selection<CalendarDate>,
    month_num: u32,
    fw: Weekday,
    swn: bool,
    Ghost(gs): Ghost<int>,
) -> (rows: Vec<MonthRow>)
    requires
        dates@.len() == 42,
        dates_ok(dates@, gs),
        -95000007 <= gs <= 95000000,
    ensures
        rows@.len() == 6,
        forall|ii: int|
            0 <= ii < 6 ==> row_matches(
                #[trigger] rows@[ii],
                gs + 7 * ii,
                month_num as int,
                sel,
                fw,
                swn,
            ),
{
    let mut rows: Vec<MonthRow> = Vec::new();
    let mut i: usize = 0;
    while i < 6
        invariant
            i <= 6,
            rows@.len() == i,
            dates@.len() == 42,
            -95000007 <= gs <= 95000000,
            dates_ok(dates@, gs),
            forall|ii: int|
                0 <= ii < i ==> row_matches(
                    #[trigger] rows@[ii],
                    gs + 7 * ii,
                    month_num as int,
                    sel,
                    fw,
                    swn,
                ),
        decreases 6 - i,
    {
        let row_start_idx: usize = 7 * i;
        let mut cells: Vec<GridCell> = Vec::new();
        let mut j: usize = 0;
        while j < 7
            invariant
                j <= 7,
                cells@.len() == j,
                i < 6,
                row_start_idx == 7 * i,
                dates@.len() == 42,
                -95000007 <= gs <= 95000000,
                dates_ok(dates@, gs),
                forall|jj: int|
                    0 <= jj < j ==> cell_matches(
                        #[trigger] cells@[jj],
                        gs + 7 * (i as int) + jj,
                        month_num as int,
                        sel,
                    ),
            decreases 7 - j,
        {
            let d = dates[row_start_idx + j];
            let classification = sel.intersects(&d);
            let in_month = d.month() == month_num;
            cells.push(GridCell { date: d, in_month, classification });
            j += 1;
        }
        let row_classification = sel.intersects_range(
            &dates[row_start_idx],
            &dates[row_start_idx + 6],
        );
        let wn = if swn {
            Option::Some(week_number(&dates[row_start_idx], fw))
        } else {
            Option::None
        };
        rows.push(MonthRow { cells, row_classification, week_number: wn });
        i += 1;
    }
    rows
}

/// The weekday header: the weekdays of the grid's first seven dates.
fn build_header(dates: &Vec<CalendarDate>, Ghost(gs): Ghost<int>) -> (h: Vec<Weekday>)
    requires
        dates@.len() == 42,
        dates_ok(dates@, gs),
    ensures
        h@.len() == 7,
        forall|jj: int| 0 <= jj < 7 ==> (#[trigger] h@[jj]).monday_rank() == weekday_rank_of(gs + jj),
{
    let mut h: Vec<Weekday> = Vec::new();
    let mut j: usize = 0;
    while j < 7
        invariant
            j <= 7,
            h@.len() == j,
            dates@.len() == 42,
            dates_ok(dates@, gs),
            forall|jj: int|
                0 <= jj < j ==> (#[trigger] h@[jj]).monday_rank() == weekday_rank_of(gs + jj),
        decreases 7 - j,
    {
        h.push(dates[j].weekday());
        j += 1;
    }
    h
}

/// The assembled structure satisfies `grid_leading_matches`: the first of
/// the month sits at position `nf - gs` and the cells before it spill
/// over from the previous month.
proof fn lemma_grid_leading(
    g: MonthGrid,
    dates: Seq<CalendarDate>,
    year: int,
    month: int,
    sel: Selection<CalendarDate>,
    fw: Weekday,
    swn: bool,
    nf: int,
    gs: int,
)
    requires
        dates.len() == 42,
        dates_ok(dates, gs),
        dates_linked(dates),
        g.rows@.len() == 6,
        forall|ii: int|
            0 <= ii < 6 ==> row_matches(#[trigger] g.rows@[ii], gs + 7 * ii, month, sel, fw, swn),
        valid_ymd(year, month, 1),
        -262000 <= year <= 262000,
        day_num_of(year, month, 1) == nf,
        1 <= nf - gs <= 7,
    ensures
        grid_leading_matches(g, year, month, nf, gs),
{
    let k0 = nf - gs;
    assert forall|k2: int| 0 <= k2 < 42 implies cell_matches(
        #[trigger] grid_cell(g, k2),
        gs + k2,
        month,
        sel,
    ) by {
        lemma_fundamental_div_mod(k2, 7);
    }
    // the first of the month sits at position k0
    assert(grid_cell(g, k0).date@.year == year && grid_cell(g, k0).date@.month == month
        && grid_cell(g, k0).date@.day == 1);
    assert(dates[k0]@.year == year && dates[k0]@.month == month && dates[k0]@.day == 1);
    let dim = days_in_month_of(year, month);
    // the cells of the month are exactly the month's days from k0 on;
    // before them the previous month, after them the following one
    assert forall|k2: int| 0 <= k2 < 42 implies ((#[trigger] grid_cell(g, k2)).date@.month == month
        <==> k0 <= k2 < k0 + dim) by {
        if k2 < k0 {
            lemma_cells_before_first(dates, k0, k2);
        } else {
            lemma_cells_from_first(dates, k0, k2);
        }
        assert(grid_cell(g, k2).date@.year == dates[k2]@.year && grid_cell(g, k2).date@.month
            == dates[k2]@.month && grid_cell(g, k2).date@.day == dates[k2]@.day);
    }
    assert forall|k2: int| k0 <= k2 < k0 + dim && k2 < 42 implies (#[trigger] grid_cell(
        g,
        k2,
    )).date@.day == 1 + k2 - k0 by {
        lemma_cells_from_first(dates, k0, k2);
        assert(grid_cell(g, k2).date@.day == dates[k2]@.day);
    }
}

/// In a linked run of dates whose position `k0` holds the first of a
/// month, the following positions walk through that month day by day and
/// then into the following month, which they do not leave within the
/// run's six weeks.
#[verifier::rlimit(80)]
#[verifier::spinoff_prover]
proof fn lemma_cells_from_first(s: Seq<CalendarDate>, k0: int, k: int)
    requires
        1 <= k0 <= k < s.len(),
        s.len() <= 42,
        forall|i: int| 0 <= i < s.len() ==> day_facts((#[trigger] s[i])@),
        dates_linked(s),
        s[k0]@.day == 1,
    ensures
        k - k0 < days_in_month_of(s[k0]@.year, s[k0]@.month) ==> (s[k]@.year == s[k0]@.year
            && s[k]@.month == s[k0]@.month && s[k]@.day == 1 + k - k0),
        k - k0 >= days_in_month_of(s[k0]@.year, s[k0]@.month) ==> {
            let nxt = next_ymd(
                s[k0]@.year,
                s[k0]@.month,
                days_in_month_of(s[k0]@.year, s[k0]@.month),
            );
            &&& s[k]@.year == nxt.0
            &&& s[k]@.month == nxt.1
            &&& s[k]@.day == 1 + k - k0 - days_in_month_of(s[k0]@.year, s[k0]@.month)
        },
    decreases k - k0,
{
    if k > k0 {
        lemma_cells_from_first(s, k0, k - 1);
        assert(next_ymd(s[k - 1]@.year, s[k - 1]@.month, s[k - 1]@.day) == (
            s[k]@.year,
            s[k]@.month,
            s[k]@.day,
        ));
    }
}

impl MonthView {
    /// The fully classified grid this view describes: six rows of seven
    /// consecutive dates, starting on the configured first weekday at
    /// most a week before the first of the month, every cell and row
    /// classified against the selection.
    ///
    /// Returns `None` exactly when the month is not in `1..=12` or the
    /// year lies outside `YEAR_MIN..=YEAR_MAX`.
    pub fn into_grid(self) -> (r: Option<MonthGrid>)
        ensures
            r is Some <==> (1 <= self@.month <= 12 && YEAR_MIN <= self@.year <= YEAR_MAX),
            r matches Some(g) ==> grid_matches(
                g,
                self@.year,
                self@.month,
                self@.selection,
                self@.first_weekday,
                self@.show_week_numbers,
                self@.show_weekdays,
            ),
    {
        let ghost v = self@;
        let first = match CalendarDate::from_ymd(self.year, self.month, 1) {
            Option::Some(f) => f,
            Option::None => {
                return Option::None;
            },
        };
        let ghost nf: int = first@.days;

        let ds: i32 = days_since_start_of_week(&first, self.first_weekday);
        let lead: i32 = if ds == 0 {
            7
        } else {
            ds
        };
        let gs_num: i32 = first.day_number() - lead;
        let ghost gs: int = gs_num as int;
        proof {
            assert(gs == grid_start_day_num(nf, self.first_weekday.monday_rank()));
        }

        let dates = collect_dates(gs_num);
        let rows = build_rows(
            &dates,
            self.selection,
            self.month,
            self.first_weekday,
            self.show_week_numbers,
            Ghost(gs),
        );
        let weekday_header = if self.show_weekdays {
            Option::Some(build_header(&dates, Ghost(gs)))
        } else {
            Option::None
        };

        let g = MonthGrid { rows, weekday_header };
        proof {
            lemma_grid_leading(
                g,
                dates@,
                v.year,
                v.month,
                v.selection,
                v.first_weekday,
                v.show_week_numbers,
                nf,
                gs,
            );
        }
        Option::Some(g)
    }
}

} // verus!
