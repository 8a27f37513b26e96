//! A selection (none / single value / ordered range) over an ordered point
//! type, and the classification of points and intervals against it.

use vstd::prelude::*;

verus! {

/// An ordered point a selection can range over: a calendar date, an ISO
/// week identifier, or a plain integer. Each point maps to an integer key,
/// and the executable comparison decides exactly the key order.
pub trait Point: Sized + Copy {
    /// The integer key that orders points of this type.
    spec fn key(self) -> int;

    /// Executable comparison, deciding the key order.
    fn le(&self, other: &Self) -> (r: bool)
        ensures
            r == (self.key() <= other.key()),
    ;
}

/// How a point or an interval relates to the current selection, when it
/// intersects it at all: the lower bound of a range falls on it
/// (`Start`), it lies strictly inside a range (`Inside`), the upper bound
/// falls on it (`End`), or it covers the selection entirely (`All`).
/// A point or interval that misses the selection is classified `None` at
/// the `Option` level.
#[derive(Clone, Copy, PartialEq, Eq, Structural, Debug)]
pub enum Intersection {
    Start,
    Inside,
    End,
    All,
}

/// The user's selection state: nothing, a single point, or an ordered
/// range. Construction through [`Selection::of_bounds`] normalizes the
/// endpoints, so a `Range` built that way always has its endpoints in
/// strictly ascending key order.
#[derive(Clone, Copy, PartialEq, Eq, Debug)]
pub enum Selection<T> {
    Empty,
    Single(T),
    Range(T, T),
}

impl<T: Point> Selection<T> {
    /// A `Range` holds its endpoints in strictly ascending key order.
    pub open spec fn wf(self) -> bool {
        match self {
            Selection::Range(lo, hi) => lo.key() < hi.key(),
            _ => true,
        }
    }
}

/// Classification of a single point against a selection: `All` exactly on
/// a selected single point; `Start`/`End` exactly on a range's bounds;
/// `Inside` strictly between them; otherwise no intersection.
pub open spec fn classify_point_spec<T: Point>(s: Selection<T>, p: T) -> Option<Intersection> {
    match s {
        Selection::Empty => None,
        Selection::Single(v) => if v.key() == p.key() {
            Some(Intersection::All)
        } else {
            None
        },
        Selection::Range(lo, hi) => if lo.key() == p.key() {
            Some(Intersection::Start)
        } else if hi.key() == p.key() {
            Some(Intersection::End)
        } else if lo.key() < p.key() && p.key() < hi.key() {
            Some(Intersection::Inside)
        } else {
            None
        },
    }
}

/// Classification of the interval `[lo_i, hi_i]` against a selection.
/// `All` when a single selected point falls within the interval, or when
/// a range's whole span lies within it — exact coincidence included, so
/// containment takes precedence over the boundary cases below.
/// `Start`/`End` when only the range's lower/upper bound falls within
/// the interval; `Inside` when the interval lies within the range
/// without containing either bound.
pub open spec fn classify_interval_spec<T: Point>(
    s: Selection<T>,
    lo_i: T,
    hi_i: T,
) -> Option<Intersection> {
    match s {
        Selection::Empty => None,
        Selection::Single(v) => if lo_i.key() <= v.key() && v.key() <= hi_i.key() {
            Some(Intersection::All)
        } else {
            None
        },
        Selection::Range(lo, hi) => if lo_i.key() <= lo.key() && hi.key() <= hi_i.key() {
            Some(Intersection::All)
        } else if lo_i.key() <= lo.key() && lo.key() <= hi_i.key() {
            Some(Intersection::Start)
        } else if lo_i.key() <= hi.key() && hi.key() <= hi_i.key() {
            Some(Intersection::End)
        } else if lo.key() <= lo_i.key() && hi.key() >= hi_i.key() {
            Some(Intersection::Inside)
        } else {
            None
        },
    }
}

/// The selection described by two mandatory endpoints: equal keys give a
/// single point, otherwise the range from the smaller to the larger key.
pub open spec fn selection_of_pair_spec<T: Point>(start: T, end: T) -> Selection<T> {
    if start.key() == end.key() {
        Selection::Single(start)
    } else if start.key() > end.key() {
        Selection::Range(end, start)
    } else {
        Selection::Range(start, end)
    }
}

/// The selection described by two optional endpoints: none given keeps no
/// selection, one given selects that point alone, both given select the
/// pair as in [`selection_of_pair_spec`].
pub open spec fn selection_of_bounds_spec<T: Point>(
    start: Option<T>,
    end: Option<T>,
) -> Selection<T> {
    match (start, end) {
        (Option::None, Option::None) => Selection::Empty,
        (Option::Some(v), Option::None) => Selection::Single(v),
        (Option::None, Option::Some(v)) => Selection::Single(v),
        (Option::Some(a), Option::Some(b)) => selection_of_pair_spec(a, b),
    }
}

impl<T: Point> Selection<T> {
    /// The normalized selection over the two endpoints, given in either
    /// order.
    pub fn of_pair(start: T, end: T) -> (r: Selection<T>)
        ensures
            r == selection_of_pair_spec(start, end),
            r.wf(),
    {
        let se = start.le(&end);
        let es = end.le(&start);
        if se && es {
            Selection::Single(start)
        } else if es {
            Selection::Range(end, start)
        } else {
            Selection::Range(start, end)
        }
    }

    /// The normalized selection over two optional endpoints.
    pub fn of_bounds(start: Option<T>, end: Option<T>) -> (r: Selection<T>)
        ensures
            r == selection_of_bounds_spec(start, end),
            r.wf(),
    {
        match (start, end) {
            (Option::None, Option::None) => Selection::Empty,
            (Option::Some(v), Option::None) => Selection::Single(v),
            (Option::None, Option::Some(v)) => Selection::Single(v),
            (Option::Some(a), Option::Some(b)) => Selection::of_pair(a, b),
        }
    }

    /// How the given point relates to this selection.
    pub fn intersects(&self, date: &T) -> (r: Option<Intersection>)
        ensures
            r == classify_point_spec(*self, *date),
    {
        match self {
            Selection::Empty => None,
            Selection::Single(v) => {
                if v.le(date) && date.le(v) {
                    Some(Intersection::All)
                } else {
                    None
                }
            },
            Selection::Range(lo, hi) => {
                if lo.le(date) && date.le(lo) {
                    Some(Intersection::Start)
                } else if hi.le(date) && date.le(hi) {
                    Some(Intersection::End)
                } else if lo.le(date) && date.le(hi) {
                    Some(Intersection::Inside)
                } else {
                    None
                }
            },
        }
    }

    /// How the interval from `start` to `end` relates to this selection.
    pub fn intersects_range(&self, start: &T, end: &T) -> (r: Option<Intersection>)
        ensures
            r == classify_interval_spec(*self, *start, *end),
    {
        match self {
            Selection::Empty => None,
            Selection::Single(v) => {
                if start.le(v) && v.le(end) {
                    Some(Intersection::All)
                } else {
                    None
                }
            },
            Selection::Range(lo, hi) => {
                if start.le(lo) && hi.le(end) {
                    Some(Intersection::All)
                } else if start.le(lo) && lo.le(end) {
                    Some(Intersection::Start)
                } else if start.le(hi) && hi.le(end) {
                    Some(Intersection::End)
                } else if lo.le(start) && end.le(hi) {
                    Some(Intersection::Inside)
                } else {
                    None
                }
            },
        }
    }
}

/// Law: classifying the selected point of a single-point selection yields
/// `All`, and classifying any point with a different key yields no
/// intersection.
pub proof fn lemma_single_point_classification<T: Point>(d: T, p: T)
    ensures
        classify_point_spec(Selection::Single(d), d) == Some(Intersection::All),
        d.key() != p.key() ==> classify_point_spec(Selection::Single(d), p) == None::<
            Intersection,
        >,
{
}

/// Law: against a range selection, the lower bound classifies as `Start`,
/// the upper bound as `End`, and every point strictly between them as
/// `Inside`.
pub proof fn lemma_range_point_classification<T: Point>(lo: T, hi: T, p: T)
    requires
        lo.key() < hi.key(),
    ensures
        classify_point_spec(Selection::Range(lo, hi), lo) == Some(Intersection::Start),
        classify_point_spec(Selection::Range(lo, hi), hi) == Some(Intersection::End),
        lo.key() < p.key() && p.key() < hi.key() ==> classify_point_spec(
            Selection::Range(lo, hi),
            p,
        ) == Some(Intersection::Inside),
{
}

/// Law: when a range selection's whole span lies within the queried
/// interval — exact coincidence included — the classification is `All`,
/// although the `Start` and `End` boundary conditions both hold of that
/// interval too: containment takes precedence over the boundary cases.
pub proof fn lemma_interval_exact_match_precedence<T: Point>(lo: T, hi: T, lo_i: T, hi_i: T)
    requires
        lo.key() < hi.key(),
        lo_i.key() <= lo.key(),
        hi.key() <= hi_i.key(),
    ensures
        lo_i.key() <= lo.key() && lo.key() <= hi_i.key(),
        lo_i.key() <= hi.key() && hi.key() <= hi_i.key(),
        classify_interval_spec(Selection::Range(lo, hi), lo_i, hi_i) == Some(Intersection::All),
{
}

/// Law: two endpoints given in descending key order normalize to the same
/// range as the same endpoints given in ascending order.
pub proof fn lemma_pair_order_irrelevant<T: Point>(a: T, b: T)
    requires
        a.key() > b.key(),
    ensures
        selection_of_pair_spec(a, b) == selection_of_pair_spec(b, a),
        selection_of_pair_spec(a, b) == Selection::Range(b, a),
{
}

} // verus!
