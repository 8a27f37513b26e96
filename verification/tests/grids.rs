//! Tests of the grid builders: the month grid end to end, the week grid,
//! and the month and year lists.

use calendar_grid::date::{CalendarDate, IsoWeekId, Weekday};
use calendar_grid::selection::Intersection;
use calendar_grid::view::month::{
    days_since_earliest_weekday, days_since_start_of_week, start_of_week, week_number, MonthGrid,
    MonthView,
};
use calendar_grid::view::weeks::{iso_week_label_round_trip, iso_week_round_trip, WeeksView};
use calendar_grid::view::months::MonthsView;
use calendar_grid::view::years::YearsView;

fn ymd(y: i32, m: u32, d: u32) -> CalendarDate {
    CalendarDate::from_ymd(y, m, d).unwrap()
}

fn grid_shape_ok(g: &MonthGrid) {
    assert_eq!(g.rows.len(), 6);
    for row in &g.rows {
        assert_eq!(row.cells.len(), 7);
    }
}

#[test]
fn month_grid_has_six_rows_of_seven() {
    for (y, m) in [(2021, 4), (2021, 2), (2020, 2), (1999, 12), (2024, 1)] {
        let g = MonthView::new(y, m).into_grid().unwrap();
        grid_shape_ok(&g);
    }
}

#[test]
fn first_in_month_cell_is_day_one() {
    for (y, m) in [(2021, 4), (2021, 2), (2020, 2), (1999, 12), (2024, 1)] {
        let g = MonthView::new(y, m).into_grid().unwrap();
        let first_in_month = g
            .rows
            .iter()
            .flat_map(|r| r.cells.iter())
            .find(|c| c.in_month)
            .unwrap();
        assert_eq!(first_in_month.date.day(), 1);
        assert_eq!(first_in_month.date.month(), m);
        assert_eq!(first_in_month.date.year(), y);
    }
}

#[test]
fn in_month_cells_are_exactly_the_days_of_the_month() {
    for (y, m, dim) in [(2021, 4, 30), (2020, 2, 29), (2021, 2, 28), (1999, 12, 31)] {
        let g = MonthView::new(y, m).into_grid().unwrap();
        let days: Vec<u32> = g
            .rows
            .iter()
            .flat_map(|r| r.cells.iter())
            .filter(|c| c.in_month)
            .map(|c| c.date.day())
            .collect();
        assert_eq!(days.len(), dim as usize);
        assert_eq!(days, (1..=dim).collect::<Vec<u32>>());
    }
}

#[test]
fn grid_start_falls_on_first_weekday() {
    let weekdays = [
        Weekday::Mon,
        Weekday::Tue,
        Weekday::Wed,
        Weekday::Thu,
        Weekday::Fri,
        Weekday::Sat,
        Weekday::Sun,
    ];
    for fw in weekdays {
        let g = MonthView::new(2021, 4).with_first_weekday(fw).into_grid().unwrap();
        assert_eq!(g.rows[0].cells[0].date.weekday(), fw);
    }
}

#[test]
fn month_starting_on_first_weekday_still_spills_over() {
    // February 2021 starts on a Monday; with Monday as first weekday the
    // grid still leads with a full week of January
    let g = MonthView::new(2021, 2).into_grid().unwrap();
    let c0 = &g.rows[0].cells[0].date;
    assert_eq!((c0.year(), c0.month(), c0.day()), (2021, 1, 25));
    assert!(!g.rows[0].cells[0].in_month);
    let c7 = &g.rows[1].cells[0].date;
    assert_eq!((c7.year(), c7.month(), c7.day()), (2021, 2, 1));
    assert!(g.rows[1].cells[0].in_month);
}

#[test]
fn april_2021_single_selection_end_to_end() {
    // April 1, 2021 is a Thursday, so the grid starts on 2021-03-29
    let g = MonthView::new(2021, 4)
        .with_selected(ymd(2021, 4, 15))
        .into_grid()
        .unwrap();
    grid_shape_ok(&g);
    let c0 = &g.rows[0].cells[0];
    assert_eq!((c0.date.year(), c0.date.month(), c0.date.day()), (2021, 3, 29));
    assert!(!c0.in_month);
    // April 15 sits in row 2, column 3, and is classified All
    let c = &g.rows[2].cells[3];
    assert_eq!((c.date.month(), c.date.day()), (4, 15));
    assert_eq!(c.classification, Some(Intersection::All));
    // every other cell of that row intersects nothing
    for (j, cell) in g.rows[2].cells.iter().enumerate() {
        if j != 3 {
            assert_eq!(cell.classification, None);
        }
    }
    // the row as an interval contains the single selected day
    assert_eq!(g.rows[2].row_classification, Some(Intersection::All));
    assert_eq!(g.rows[0].row_classification, None);
}

#[test]
fn range_selection_classifies_rows_and_cells() {
    let g = MonthView::new(2021, 4)
        .with_selection(ymd(2021, 4, 25), ymd(2021, 4, 8))
        .into_grid()
        .unwrap();
    // normalization swapped the endpoints
    let find = |day: u32| {
        g.rows
            .iter()
            .flat_map(|r| r.cells.iter())
            .find(|c| c.in_month && c.date.day() == day)
            .unwrap()
            .classification
    };
    assert_eq!(find(8), Some(Intersection::Start));
    assert_eq!(find(25), Some(Intersection::End));
    assert_eq!(find(15), Some(Intersection::Inside));
    assert_eq!(find(7), None);
    assert_eq!(find(26), None);
    // the row holding April 8 (row 1: Apr 5..11) carries Start, a fully
    // covered row (Apr 12..18) carries Inside, the row holding April 25
    // (Apr 19..25) carries End
    assert_eq!(g.rows[1].row_classification, Some(Intersection::Start));
    assert_eq!(g.rows[2].row_classification, Some(Intersection::Inside));
    assert_eq!(g.rows[3].row_classification, Some(Intersection::End));
}

#[test]
fn range_within_one_row_classifies_the_row_all() {
    // April 13 to 16, 2021 lie inside the row April 12..18: the whole
    // selection falls in that week, so the row is classified All
    let g = MonthView::new(2021, 4)
        .with_selection(ymd(2021, 4, 13), ymd(2021, 4, 16))
        .into_grid()
        .unwrap();
    assert_eq!(g.rows[2].row_classification, Some(Intersection::All));
    assert_eq!(g.rows[1].row_classification, None);
    assert_eq!(g.rows[3].row_classification, None);
}

#[test]
fn maybe_with_selection_follows_the_normalization_table() {
    let a = ymd(2021, 4, 20);
    let b = ymd(2021, 4, 10);
    // with no endpoints, a previously set selection is cleared
    let g = MonthView::new(2021, 4)
        .with_selected(ymd(2021, 4, 15))
        .maybe_with_selection(None, None)
        .into_grid()
        .unwrap();
    assert!(g
        .rows
        .iter()
        .flat_map(|r| r.cells.iter())
        .all(|c| c.classification.is_none()));
    // one endpoint selects that date alone
    let g = MonthView::new(2021, 4)
        .maybe_with_selection(None, Some(ymd(2021, 4, 15)))
        .into_grid()
        .unwrap();
    assert_eq!(g.rows[2].cells[3].classification, Some(Intersection::All));
    // two endpoints, in either order, select the normalized range
    let g = MonthView::new(2021, 4)
        .maybe_with_selection(Some(a), Some(b))
        .into_grid()
        .unwrap();
    assert_eq!(g.rows[1].cells[5].classification, Some(Intersection::Start));
    assert_eq!(g.rows[3].cells[1].classification, Some(Intersection::End));
}

#[test]
fn month_grid_rejects_invalid_input() {
    assert!(MonthView::new(2021, 13).into_grid().is_none());
    assert!(MonthView::new(2021, 0).into_grid().is_none());
    assert!(MonthView::new(300000, 4).into_grid().is_none());
    assert!(MonthView::new(2021, 12).into_grid().is_some());
}

#[test]
fn week_numbers_appear_only_when_requested() {
    let g = MonthView::new(2021, 4).into_grid().unwrap();
    assert!(g.rows.iter().all(|r| r.week_number.is_none()));
    assert!(g.weekday_header.is_none());
    let g = MonthView::new(2021, 4).show_week_numbers().show_weekdays().into_grid().unwrap();
    assert_eq!(g.rows[0].week_number, Some(13));
    assert_eq!(g.rows[2].week_number, Some(15));
    let header = g.weekday_header.unwrap();
    assert_eq!(header.len(), 7);
    assert_eq!(header[0], Weekday::Mon);
    assert_eq!(header[6], Weekday::Sun);
}

#[test]
fn helper_functions_match_known_values() {
    assert_eq!(days_since_earliest_weekday(Weekday::Sat), 0);
    assert_eq!(days_since_earliest_weekday(Weekday::Sun), 1);
    assert_eq!(days_since_earliest_weekday(Weekday::Mon), 2);
    assert_eq!(days_since_earliest_weekday(Weekday::Fri), 6);
    // 2021-04-15 is a Thursday
    let d = ymd(2021, 4, 15);
    assert_eq!(days_since_start_of_week(&d, Weekday::Mon), 3);
    assert_eq!(days_since_start_of_week(&d, Weekday::Thu), 0);
    assert_eq!(days_since_start_of_week(&d, Weekday::Fri), 6);
    let s = start_of_week(&d, Weekday::Mon).unwrap();
    assert_eq!((s.month(), s.day()), (4, 12));
    let s = start_of_week(&d, Weekday::Fri).unwrap();
    assert_eq!((s.month(), s.day()), (4, 9));
    assert_eq!(week_number(&ymd(2021, 1, 4), Weekday::Mon), 1);
    assert_eq!(week_number(&ymd(2021, 1, 4), Weekday::Sun), 1);
}

#[test]
fn week_round_trip_recovers_the_identifier() {
    for fw in [Weekday::Mon, Weekday::Wed, Weekday::Fri, Weekday::Sun] {
        for id in [
            IsoWeekId { year: 2021, week: 15 },
            IsoWeekId { year: 2020, week: 53 },
            IsoWeekId { year: 2021, week: 1 },
        ] {
            assert_eq!(iso_week_round_trip(id, fw), Some(id));
        }
    }
}

#[test]
fn week_label_round_trip_holds_through_thursday() {
    for fw in [Weekday::Mon, Weekday::Tue, Weekday::Wed, Weekday::Thu] {
        let id = IsoWeekId { year: 2021, week: 10 };
        assert_eq!(iso_week_label_round_trip(id, fw), Some(10));
    }
    // from Friday on the label shift crosses into the next ISO week:
    // the Friday of 2021 week 10 is labelled week 11
    let rep = CalendarDate::iso_week_start_date(IsoWeekId { year: 2021, week: 10 }, Weekday::Fri)
        .unwrap();
    assert_eq!(week_number(&rep, Weekday::Fri), 11);
}

#[test]
fn weeks_view_selects_the_representative_week() {
    let g = WeeksView::new(2021, 4)
        .with_selected(IsoWeekId { year: 2021, week: 15 })
        .into_grid()
        .unwrap();
    grid_shape_ok(&g);
    // week numbers are forced on
    assert_eq!(g.rows[2].week_number, Some(15));
    // the representative date (Monday of week 15, 2021-04-12) is selected
    let c = &g.rows[2].cells[0];
    assert_eq!((c.date.month(), c.date.day()), (4, 12));
    assert_eq!(c.classification, Some(Intersection::All));
    assert_eq!(g.rows[2].row_classification, Some(Intersection::All));
}

#[test]
fn weeks_view_range_spans_rows() {
    let g = WeeksView::new(2021, 4)
        .with_selection(
            IsoWeekId { year: 2021, week: 16 },
            IsoWeekId { year: 2021, week: 14 },
        )
        .into_grid()
        .unwrap();
    // rows 1..=3 show weeks 14..=16; their Mondays bound the range
    assert_eq!(g.rows[1].cells[0].classification, Some(Intersection::Start));
    assert_eq!(g.rows[3].cells[0].classification, Some(Intersection::End));
    assert_eq!(g.rows[2].cells[0].classification, Some(Intersection::Inside));
}

#[test]
fn months_list_flags_the_selected_month() {
    let list = MonthsView::new().with_selected(4).into_grid();
    assert_eq!(list.len(), 12);
    for (i, e) in list.iter().enumerate() {
        assert_eq!(e.value, i as u32 + 1);
        assert_eq!(e.selected, e.value == 4);
        assert!(!e.disabled);
    }
    let list = MonthsView::new().into_grid();
    assert!(list.iter().all(|e| !e.selected));
}

#[test]
fn decade_spans_twelve_years_with_disabled_margins() {
    let list = YearsView::decade_from(2010).into_grid();
    assert_eq!(list.len(), 12);
    for (i, e) in list.iter().enumerate() {
        assert_eq!(e.value, 2009 + i as i32);
        assert_eq!(e.disabled, e.value == 2009 || e.value == 2020);
    }
}

#[test]
fn years_list_flags_selection_and_bounds() {
    let list = YearsView::new(1999, 2003).with_selected(2001).into_grid();
    assert_eq!(list.len(), 5);
    assert_eq!(
        list.iter().map(|e| e.value).collect::<Vec<_>>(),
        vec![1999, 2000, 2001, 2002, 2003]
    );
    assert!(list[2].selected);
    assert_eq!(list.iter().filter(|e| e.selected).count(), 1);
    assert!(list.iter().all(|e| !e.disabled));
    // an empty range yields an empty list
    assert!(YearsView::new(5, 3).into_grid().is_empty());
    // a one-year range yields one entry
    assert_eq!(YearsView::new(2000, 2000).into_grid().len(), 1);
}
