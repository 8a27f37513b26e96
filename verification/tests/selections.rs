//! Tests of the selection model: normalization and the classification of
//! points and intervals.

use calendar_grid::date::CalendarDate;
use calendar_grid::selection::{Intersection, Selection};

fn ymd(y: i32, m: u32, d: u32) -> CalendarDate {
    CalendarDate::from_ymd(y, m, d).unwrap()
}

#[test]
fn single_point_classifies_itself_as_all() {
    let d = ymd(2021, 4, 15);
    let sel = Selection::Single(d);
    assert_eq!(sel.intersects(&d), Some(Intersection::All));
    assert_eq!(sel.intersects(&ymd(2021, 4, 16)), None);
    assert_eq!(sel.intersects(&ymd(2021, 4, 14)), None);
}

#[test]
fn range_boundaries_classify_as_start_and_end() {
    let lo = ymd(2021, 4, 10);
    let hi = ymd(2021, 4, 20);
    let sel = Selection::Range(lo, hi);
    assert_eq!(sel.intersects(&lo), Some(Intersection::Start));
    assert_eq!(sel.intersects(&hi), Some(Intersection::End));
    assert_eq!(sel.intersects(&ymd(2021, 4, 15)), Some(Intersection::Inside));
    assert_eq!(sel.intersects(&ymd(2021, 4, 9)), None);
    assert_eq!(sel.intersects(&ymd(2021, 4, 21)), None);
}

#[test]
fn exact_interval_match_takes_precedence() {
    let lo = ymd(2021, 4, 12);
    let hi = ymd(2021, 4, 18);
    let sel = Selection::Range(lo, hi);
    // both the Start and the End conditions hold of this interval, yet
    // exact containment wins
    assert_eq!(sel.intersects_range(&lo, &hi), Some(Intersection::All));
}

#[test]
fn contained_range_classifies_all() {
    // a range lying strictly inside the queried interval is covered by
    // it entirely: All, although both boundary conditions hold as well
    let sel = Selection::Range(ymd(2021, 4, 13), ymd(2021, 4, 16));
    assert_eq!(
        sel.intersects_range(&ymd(2021, 4, 12), &ymd(2021, 4, 18)),
        Some(Intersection::All)
    );
    // sharing one bound with the interval is still containment
    assert_eq!(
        sel.intersects_range(&ymd(2021, 4, 13), &ymd(2021, 4, 18)),
        Some(Intersection::All)
    );
}

#[test]
fn interval_classification_covers_every_overlap() {
    let sel = Selection::Range(ymd(2021, 4, 10), ymd(2021, 4, 20));
    // the range's lower bound falls inside the interval
    assert_eq!(
        sel.intersects_range(&ymd(2021, 4, 5), &ymd(2021, 4, 11)),
        Some(Intersection::Start)
    );
    // the range's upper bound falls inside the interval
    assert_eq!(
        sel.intersects_range(&ymd(2021, 4, 19), &ymd(2021, 4, 25)),
        Some(Intersection::End)
    );
    // the interval lies strictly inside the range
    assert_eq!(
        sel.intersects_range(&ymd(2021, 4, 12), &ymd(2021, 4, 18)),
        Some(Intersection::Inside)
    );
    // the interval misses the range
    assert_eq!(sel.intersects_range(&ymd(2021, 4, 1), &ymd(2021, 4, 7)), None);
    // a single selected point inside the interval covers it
    let single = Selection::Single(ymd(2021, 4, 15));
    assert_eq!(
        single.intersects_range(&ymd(2021, 4, 12), &ymd(2021, 4, 18)),
        Some(Intersection::All)
    );
    let empty: Selection<CalendarDate> = Selection::Empty;
    assert_eq!(empty.intersects_range(&ymd(2021, 4, 12), &ymd(2021, 4, 18)), None);
}

#[test]
fn pair_normalization_ignores_endpoint_order() {
    let a = ymd(2021, 6, 20);
    let b = ymd(2021, 6, 5);
    assert_eq!(Selection::of_pair(a, b), Selection::of_pair(b, a));
    assert_eq!(Selection::of_pair(a, b), Selection::Range(b, a));
}

#[test]
fn equal_endpoints_collapse_to_single() {
    let a = ymd(2021, 6, 5);
    assert_eq!(Selection::of_pair(a, a), Selection::Single(a));
}

#[test]
fn bounds_normalization_handles_partial_input() {
    let a = ymd(2021, 6, 5);
    let b = ymd(2021, 6, 20);
    assert_eq!(
        Selection::of_bounds(None, None),
        Selection::<CalendarDate>::Empty
    );
    assert_eq!(Selection::of_bounds(Some(a), None), Selection::Single(a));
    assert_eq!(Selection::of_bounds(None, Some(b)), Selection::Single(b));
    assert_eq!(Selection::of_bounds(Some(b), Some(a)), Selection::Range(a, b));
}
