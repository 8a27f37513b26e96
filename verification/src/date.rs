//! Calendar dates, weekdays and ISO week identifiers.
//!
//! A [`CalendarDate`] couples a day number (a count of days in the
//! proleptic Gregorian calendar, day 1 being year 1, January 1) with the
//! civil form (year, month, day) of the same date. Day numbers make order
//! and day arithmetic plain integer work; the civil form is what grids
//! display. The two are kept consistent by an invariant; the conversion
//! between them is delegated to the `chrono` crate through a few trusted
//! wrappers.

use vstd::prelude::*;

use crate::selection::Point;
use chrono::Datelike;

verus! {

/// Smallest year accepted when constructing a date from year, month, day.
pub const YEAR_MIN: i32 = -260000;
/// Largest year accepted when constructing a date from year, month, day.
pub const YEAR_MAX: i32 = 260000;

/// Smallest day number a `CalendarDate` can hold. Chosen with slack over
/// what `YEAR_MIN` can produce, and comfortably inside the range `chrono`
/// supports.
pub const DAY_NUM_MIN: i32 = -95400000;
/// Largest day number a `CalendarDate` can hold.
pub const DAY_NUM_MAX: i32 = 95400000;

/// A day of the week.
#[derive(Clone, Copy, PartialEq, Eq, Structural, Debug)]
pub enum Weekday {
    Mon,
    Tue,
    Wed,
    Thu,
    Fri,
    Sat,
    Sun,
}

impl Weekday {
    /// Rank of this weekday counting from Monday: Monday is 0, Sunday is 6.
    pub open spec fn monday_rank(self) -> int {
        match self {
            Weekday::Mon => 0,
            Weekday::Tue => 1,
            Weekday::Wed => 2,
            Weekday::Thu => 3,
            Weekday::Fri => 4,
            Weekday::Sat => 5,
            Weekday::Sun => 6,
        }
    }

    /// Number of days this weekday lies after Monday, in `0..=6`.
    pub fn num_days_from_monday(&self) -> (r: u32)
        ensures
            r == self.monday_rank(),
    {
        match self {
            Weekday::Mon => 0,
            Weekday::Tue => 1,
            Weekday::Wed => 2,
            Weekday::Thu => 3,
            Weekday::Fri => 4,
            Weekday::Sat => 5,
            Weekday::Sun => 6,
        }
    }

    /// The weekday with the given rank counting from Monday.
    pub fn from_monday_rank(r: u32) -> (w: Weekday)
        requires
            r < 7,
        ensures
            w.monday_rank() == r,
    {
        if r == 0 {
            Weekday::Mon
        } else if r == 1 {
            Weekday::Tue
        } else if r == 2 {
            Weekday::Wed
        } else if r == 3 {
            Weekday::Thu
        } else if r == 4 {
            Weekday::Fri
        } else if r == 5 {
            Weekday::Sat
        } else {
            Weekday::Sun
        }
    }
}

/// Whether `y` is a leap year of the proleptic Gregorian calendar.
pub open spec fn is_leap_year(y: int) -> bool {
    (y % 4 == 0 && y % 100 != 0) || y % 400 == 0
}

/// Number of days in month `m` of year `y`, for `m` in `1..=12`.
pub open spec fn days_in_month_of(y: int, m: int) -> int {
    if m == 2 {
        if is_leap_year(y) {
            29
        } else {
            28
        }
    } else if m == 4 || m == 6 || m == 9 || m == 11 {
        30
    } else {
        31
    }
}

/// Whether (year, month, day) names a date of the proleptic Gregorian
/// calendar.
pub open spec fn valid_ymd(y: int, m: int, d: int) -> bool {
    1 <= m <= 12 && 1 <= d <= days_in_month_of(y, m)
}

/// The civil form of the day after (y, m, d).
pub open spec fn next_ymd(y: int, m: int, d: int) -> (int, int, int) {
    if d < days_in_month_of(y, m) {
        (y, m, d + 1)
    } else if m < 12 {
        (y, m + 1, 1)
    } else {
        (y + 1, 1, 1)
    }
}

/// The day after a valid date is again a valid date.
pub proof fn lemma_next_ymd_valid(y: int, m: int, d: int)
    requires
        valid_ymd(y, m, d),
    ensures
        valid_ymd(next_ymd(y, m, d).0, next_ymd(y, m, d).1, next_ymd(y, m, d).2),
{
}

/// Weekday rank (from Monday) of the date with day number `n`. Day 1,
/// year 1 January 1, is a Monday, and weekdays cycle with period 7.
pub open spec fn weekday_rank_of(n: int) -> int {
    (n - 1) % 7
}

/// Day number of the valid date (y, m, d): the count of days since the
/// beginning of the common era, day 1 being year 1, January 1, in the
/// proleptic Gregorian calendar. Its value is supplied by `chrono`; the
/// trusted wrappers below state the facts this library relies on.
pub uninterp spec fn day_num_of(y: int, m: int, d: int) -> int;

/// Moving a day number forward moves its weekday rank by the same amount
/// modulo 7.
pub proof fn lemma_weekday_rank_add(n: int, k: int)
    requires
        0 <= k,
    ensures
        weekday_rank_of(n + k) == (weekday_rank_of(n) + k) % 7,
{
    let q = (n - 1) / 7;
    vstd::arithmetic::div_mod::lemma_fundamental_div_mod(n - 1, 7);
    assert(n + k - 1 == 7 * q + (weekday_rank_of(n) + k));
    vstd::arithmetic::div_mod::lemma_mod_multiples_vanish(q, weekday_rank_of(n) + k, 7);
}

/// The mathematical content of a `CalendarDate`.
pub ghost struct DateView {
    /// Day number, year 1 January 1 being day 1.
    pub days: int,
    /// Civil year.
    pub year: int,
    /// Civil month, `1..=12`.
    pub month: int,
    /// Civil day of month, `1..=31`.
    pub day: int,
}

/// The consistency every `CalendarDate` view satisfies: the civil form is
/// a valid date, it is the civil form of `days`, and `days` lies in the
/// supported range (which bounds the civil year as well).
pub open spec fn date_ok(v: DateView) -> bool {
    &&& valid_ymd(v.year, v.month, v.day)
    &&& day_num_of(v.year, v.month, v.day) == v.days
    &&& DAY_NUM_MIN <= v.days <= DAY_NUM_MAX
    &&& -261500 <= v.year <= 261500
}

/// The day after this date has the next day number.
pub open spec fn day_num_adjacent(v: DateView) -> bool {
    day_num_of(
        next_ymd(v.year, v.month, v.day).0,
        next_ymd(v.year, v.month, v.day).1,
        next_ymd(v.year, v.month, v.day).2,
    ) == v.days + 1
}

/// No other valid date (within the supported years) shares this date's
/// day number.
pub open spec fn day_num_unique_at(v: DateView) -> bool {
    forall|y2: int, m2: int, d2: int|
        valid_ymd(y2, m2, d2) && -262000 <= y2 <= 262000 && (#[trigger] day_num_of(y2, m2, d2))
            == v.days ==> y2 == v.year && m2 == v.month && d2 == v.day
}

/// All the facts the conversion wrappers supply about one date.
pub open spec fn day_facts(v: DateView) -> bool {
    &&& date_ok(v)
    &&& day_num_adjacent(v)
    &&& day_num_unique_at(v)
}

/// A date of the proleptic Gregorian calendar, within the supported range.
#[derive(Clone, Copy, PartialEq, Eq, Structural, Debug)]
pub struct CalendarDate {
    days: i32,
    year: i32,
    month: u32,
    day: u32,
    wd: u32,
}

impl View for CalendarDate {
    type V = DateView;

    closed spec fn view(&self) -> DateView {
        DateView {
            days: self.days as int,
            year: self.year as int,
            month: self.month as int,
            day: self.day as int,
        }
    }
}

impl CalendarDate {
    #[verifier::type_invariant]
    spec fn inv(self) -> bool {
        &&& day_facts(self@)
        &&& self.wd as int == weekday_rank_of(self@.days)
    }

    /// Civil year of this date.
    pub fn year(&self) -> (r: i32)
        ensures
            r == self@.year,
    {
        self.year
    }

    /// Civil month of this date, in `1..=12`.
    pub fn month(&self) -> (r: u32)
        ensures
            r == self@.month,
    {
        self.month
    }

    /// Civil day of month of this date.
    pub fn day(&self) -> (r: u32)
        ensures
            r == self@.day,
    {
        self.day
    }

    /// Day number of this date, year 1 January 1 being day 1.
    pub fn day_number(&self) -> (r: i32)
        ensures
            r == self@.days,
    {
        self.days
    }

    /// The weekday this date falls on.
    pub fn weekday(&self) -> (w: Weekday)
        ensures
            w.monday_rank() == weekday_rank_of(self@.days),
    {
        proof {
            use_type_invariant(&*self);
        }
        Weekday::from_monday_rank(self.wd)
    }

    /// Every `CalendarDate` satisfies `day_facts`; callers that hold a
    /// date from an unknown source can recover the facts through this.
    pub fn recall_facts(&self)
        ensures
            day_facts(self@),
    {
        proof {
            use_type_invariant(&*self);
        }
    }
}

/// Relies on `chrono::NaiveDate::from_ymd_opt`, which returns a date
/// exactly for the (year, month, day) triples that name a proleptic
/// Gregorian date within its supported years; on
/// `NaiveDate::num_days_from_ce`, which counts days with year 1 January 1
/// as day 1 (a Monday); and on `NaiveDate::weekday`. A day count so
/// anchored is a strictly increasing one-to-one map from valid dates in
/// calendar order to integers, which is what `day_facts` records.
#[verifier::external_body]
fn raw_from_ymd(y: i32, m: u32, d: u32) -> (r: Option<CalendarDate>)
    requires
        YEAR_MIN <= y <= YEAR_MAX,
    ensures
        r is Some <==> valid_ymd(y as int, m as int, d as int),
        r matches Some(c) ==> {
            &&& c@.year == y
            &&& c@.month == m
            &&& c@.day == d
            &&& c@.days == day_num_of(y as int, m as int, d as int)
            &&& day_facts(c@)
            &&& -95000000 <= c@.days <= 95000000
        },
{
    let nd = chrono::NaiveDate::from_ymd_opt(y, m, d)?;
    Some(
        CalendarDate {
            days: nd.num_days_from_ce(),
            year: y,
            month: m,
            day: d,
            wd: nd.weekday().num_days_from_monday(),
        },
    )
}

/// Relies on `chrono::NaiveDate::from_num_days_from_ce_opt`, which is
/// defined on every day number in the range this library accepts and
/// returns the date with that day number; and on the `Datelike`
/// accessors `year`, `month`, `day` and on `NaiveDate::weekday`. See
/// `raw_from_ymd` for the day-count anchoring this relies on.
#[verifier::external_body]
fn raw_from_day_number(n: i32) -> (r: CalendarDate)
    requires
        DAY_NUM_MIN <= n <= DAY_NUM_MAX,
    ensures
        r@.days == n,
        day_num_of(r@.year, r@.month, r@.day) == n,
        day_facts(r@),
{
    let nd = chrono::NaiveDate::from_num_days_from_ce_opt(n).unwrap();
    CalendarDate {
        days: n,
        year: nd.year(),
        month: nd.month(),
        day: nd.day(),
        wd: nd.weekday().num_days_from_monday(),
    }
}

impl CalendarDate {
    /// The date with the given civil form, or `None` when the triple does
    /// not name a calendar date or the year lies outside
    /// `YEAR_MIN..=YEAR_MAX`.
    pub fn from_ymd(year: i32, month: u32, day: u32) -> (r: Option<CalendarDate>)
        ensures
            r is Some <==> (YEAR_MIN <= year <= YEAR_MAX && valid_ymd(
                year as int,
                month as int,
                day as int,
            )),
            r matches Some(c) ==> {
                &&& c@.year == year
                &&& c@.month == month
                &&& c@.day == day
                &&& day_facts(c@)
                &&& -95000000 <= c@.days <= 95000000
            },
    {
        if year < YEAR_MIN || year > YEAR_MAX {
            None
        } else {
            raw_from_ymd(year, month, day)
        }
    }

    /// The date with the given day number, or `None` when the number lies
    /// outside `DAY_NUM_MIN..=DAY_NUM_MAX`.
    pub fn from_day_number(n: i32) -> (r: Option<CalendarDate>)
        ensures
            r is Some <==> DAY_NUM_MIN <= n <= DAY_NUM_MAX,
            r matches Some(c) ==> c@.days == n && day_facts(c@),
    {
        if n < DAY_NUM_MIN || n > DAY_NUM_MAX {
            None
        } else {
            Some(raw_from_day_number(n))
        }
    }

    /// This date moved by `delta` days (negative `delta` moves towards the
    /// past), or `None` when the result would leave the supported range.
    pub fn add_days(&self, delta: i32) -> (r: Option<CalendarDate>)
        ensures
            r is Some <==> DAY_NUM_MIN <= self@.days + delta <= DAY_NUM_MAX,
            r matches Some(c) ==> c@.days == self@.days + delta && day_facts(c@),
    {
        proof {
            use_type_invariant(&*self);
        }
        let target: i64 = self.days as i64 + delta as i64;
        if target < DAY_NUM_MIN as i64 || target > DAY_NUM_MAX as i64 {
            None
        } else {
            Some(raw_from_day_number(target as i32))
        }
    }
}

/// ISO year of the date with day number `n`, per the ISO-8601 week rule
/// (a date belongs to the week containing the Thursday of its Monday-based
/// week). Supplied by `chrono::naive::IsoWeek::year`.
pub uninterp spec fn iso_year_of(n: int) -> int;

/// ISO week number, `1..=53`, of the date with day number `n`. Supplied
/// by `chrono::naive::IsoWeek::week`.
pub uninterp spec fn iso_week_num_of(n: int) -> int;

/// Day number of the date in ISO week (`y`, `w`) whose weekday has rank
/// `fw_rank` from Monday. Supplied by
/// `chrono::NaiveDate::from_isoywd_opt`.
pub uninterp spec fn iso_week_date_of(y: int, w: int, fw_rank: int) -> int;

/// An ISO-8601 week: an ISO year and a week number in `1..=53`.
#[derive(Clone, Copy, PartialEq, Eq, Structural, Debug)]
pub struct IsoWeekId {
    /// ISO year; near January 1 it can differ from the civil year.
    pub year: i32,
    /// ISO week number, `1..=53`.
    pub week: u32,
}

/// Relies on `chrono::Datelike::iso_week` together with the accessors
/// `IsoWeek::year` and `IsoWeek::week`: the ISO week of a date is a
/// function of the date alone, its week number lies in `1..=53`, and ISO
/// weeks run Monday through Sunday, so every date shares its ISO week
/// with the Monday on or before it (day 1 of the common era is a Monday).
#[verifier::external_body]
fn raw_iso_week(n: i32) -> (r: IsoWeekId)
    requires
        DAY_NUM_MIN - 10 <= n <= DAY_NUM_MAX + 10,
    ensures
        r.year as int == iso_year_of(n as int),
        r.week as int == iso_week_num_of(n as int),
        1 <= r.week <= 53,
        -262000 <= r.year <= 262000,
        r.year as int == iso_year_of(n - weekday_rank_of(n as int)),
        r.week as int == iso_week_num_of(n - weekday_rank_of(n as int)),
{
    let nd = chrono::NaiveDate::from_num_days_from_ce_opt(n).unwrap();
    let iw = nd.iso_week();
    IsoWeekId { year: iw.year(), week: iw.week() }
}

/// Relies on `chrono::NaiveDate::from_isoywd_opt`: for a week number in
/// `1..=52` (every ISO year has at least 52 weeks) it returns the date in
/// the given ISO week bearing the given weekday; for week 53 it returns
/// that date when the ISO year has 53 weeks and `None` otherwise. Since
/// ISO weeks run Monday through Sunday, the returned date moved back by
/// its weekday rank — the Monday of its week — still lies in the same
/// ISO week. Also relies on `NaiveDate::num_days_from_ce` and the
/// `Datelike` accessors as in `raw_from_ymd`.
#[verifier::external_body]
fn raw_from_isoywd(y: i32, w: u32, fw_rank: u32) -> (r: Option<CalendarDate>)
    requires
        YEAR_MIN <= y <= YEAR_MAX,
        1 <= w <= 53,
        fw_rank < 7,
    ensures
        1 <= w <= 52 ==> r is Some,
        r matches Some(c) ==> {
            &&& c@.days == iso_week_date_of(y as int, w as int, fw_rank as int)
            &&& day_facts(c@)
            &&& iso_year_of(c@.days) == y
            &&& iso_week_num_of(c@.days) == w
            &&& weekday_rank_of(c@.days) == fw_rank
            &&& iso_year_of(c@.days - fw_rank) == y
            &&& iso_week_num_of(c@.days - fw_rank) == w
            &&& -95100000 <= c@.days <= 95100000
        },
{
    let wd = chrono::Weekday::try_from(fw_rank as u8).ok()?;
    let nd = chrono::NaiveDate::from_isoywd_opt(y, w, wd)?;
    Some(
        CalendarDate {
            days: nd.num_days_from_ce(),
            year: nd.year(),
            month: nd.month(),
            day: nd.day(),
            wd: fw_rank,
        },
    )
}

impl CalendarDate {
    /// The ISO-8601 week this date belongs to.
    pub fn iso_week(&self) -> (r: IsoWeekId)
        ensures
            r.year as int == iso_year_of(self@.days),
            r.week as int == iso_week_num_of(self@.days),
            1 <= r.week <= 53,
    {
        proof {
            use_type_invariant(&*self);
        }
        raw_iso_week(self.days)
    }

    /// The ISO-8601 week of this date moved `shift` days forward.
    pub fn iso_week_shifted(&self, shift: u32) -> (r: IsoWeekId)
        requires
            shift <= 7,
        ensures
            r.year as int == iso_year_of(self@.days + shift),
            r.week as int == iso_week_num_of(self@.days + shift),
            r.year as int == iso_year_of(
                self@.days + shift - weekday_rank_of(self@.days + shift),
            ),
            r.week as int == iso_week_num_of(
                self@.days + shift - weekday_rank_of(self@.days + shift),
            ),
            1 <= r.week <= 53,
    {
        proof {
            use_type_invariant(&*self);
        }
        raw_iso_week(self.days + shift as i32)
    }

    /// The date that represents ISO week `id` under the given first
    /// weekday: the day of that ISO week bearing `first_weekday`.
    ///
    /// Returns `None` exactly when `id.year` lies outside
    /// `YEAR_MIN..=YEAR_MAX`, `id.week` is not a week number, or
    /// `id.week` is 53 in an ISO year of only 52 weeks.
    pub fn iso_week_start_date(id: IsoWeekId, first_weekday: Weekday) -> (r: Option<CalendarDate>)
        ensures
            (YEAR_MIN <= id.year <= YEAR_MAX && 1 <= id.week <= 52) ==> r is Some,
            r is Some ==> YEAR_MIN <= id.year <= YEAR_MAX && 1 <= id.week <= 53,
            r matches Some(c) ==> {
                &&& c@.days == iso_week_date_of(
                    id.year as int,
                    id.week as int,
                    first_weekday.monday_rank(),
                )
                &&& day_facts(c@)
                &&& iso_year_of(c@.days) == id.year
                &&& iso_week_num_of(c@.days) == id.week
                &&& weekday_rank_of(c@.days) == first_weekday.monday_rank()
                &&& iso_year_of(c@.days - first_weekday.monday_rank()) == id.year
                &&& iso_week_num_of(c@.days - first_weekday.monday_rank()) == id.week
                &&& -95100000 <= c@.days <= 95100000
            },
    {
        if id.year < YEAR_MIN || id.year > YEAR_MAX || id.week < 1 || id.week > 53 {
            None
        } else {
            raw_from_isoywd(id.year, id.week, first_weekday.num_days_from_monday())
        }
    }
}

impl Point for IsoWeekId {
    /// ISO weeks are ordered by year, then week number; the key packs the
    /// two lexicographically.
    open spec fn key(self) -> int {
        self.year * 100 + self.week
    }

    fn le(&self, other: &Self) -> (r: bool) {
        let a: i64 = self.year as i64 * 100 + self.week as i64;
        let b: i64 = other.year as i64 * 100 + other.week as i64;
        a <= b
    }
}

impl Point for CalendarDate {
    /// Dates are ordered by their day number.
    open spec fn key(self) -> int {
        self@.days
    }

    fn le(&self, other: &Self) -> (r: bool) {
        self.days <= other.days
    }
}

} // verus!
