//! Locations: geographic points, stored once and found again by an
//! identifier derived from their coordinates.

use vstd::prelude::*;

verus! {

/// The coordinates of a point, latitude and longitude in that order. Each is
/// a real number carried as its 64-bit pattern; two points are the same point
/// when both patterns agree.
pub type Coordinates = (u64, u64);

/// A point as it is handed in: each coordinate as its 64-bit pattern and,
/// beside it, as its decimal text. The text is written by whoever hands the
/// point in; the same coordinate must always come with the same text.
#[derive(Debug, Clone, PartialEq, Eq)]
pub struct Point {
    pub lat: u64,
    pub long: u64,
    pub lat_text: String,
    pub long_text: String,
}

/// A point with its texts as sequences of characters.
pub struct PointView {
    pub lat: u64,
    pub long: u64,
    pub lat_text: Seq<char>,
    pub long_text: Seq<char>,
}

impl View for Point {
    type V = PointView;

    open spec fn view(&self) -> PointView {
        PointView {
            lat: self.lat,
            long: self.long,
            lat_text: self.lat_text@,
            long_text: self.long_text@,
        }
    }
}

impl DeepView for Point {
    type V = PointView;

    open spec fn deep_view(&self) -> PointView {
        self@
    }
}

/// A stored point.
#[derive(Debug, Clone, PartialEq, Eq)]
pub struct Location {
    pub id: String,
    pub lat: u64,
    pub long: u64,
}

/// A stored point with its identifier as a sequence of characters.
pub struct LocationView {
    pub id: Seq<char>,
    pub lat: u64,
    pub long: u64,
}

impl View for Location {
    type V = LocationView;

    open spec fn view(&self) -> LocationView {
        LocationView { id: self.id@, lat: self.lat, long: self.long }
    }
}

impl DeepView for Location {
    type V = LocationView;

    open spec fn deep_view(&self) -> LocationView {
        self@
    }
}

/// The identifier of `point`: the text of its latitude, a minus sign, and the
/// text of its longitude.
pub open spec fn location_id(point: PointView) -> Seq<char> {
    point.lat_text + seq!['-'] + point.long_text
}

/// The identifier of the point at `coords` when coordinates are written as
/// `writing` writes them.
pub open spec fn written_id(writing: spec_fn(u64) -> Seq<char>, coords: Coordinates) -> Seq<char> {
    writing(coords.0) + seq!['-'] + writing(coords.1)
}

/// Whether identifiers written as `writing` writes coordinates tell points
/// apart: different coordinates never give the same identifier.
pub open spec fn tells_apart(writing: spec_fn(u64) -> Seq<char>) -> bool {
    forall|a: Coordinates, b: Coordinates|
        #[trigger] written_id(writing, a) == #[trigger] written_id(writing, b) ==> a == b
}

impl PointView {
    /// The coordinates of this point.
    pub open spec fn coords(self) -> Coordinates {
        (self.lat, self.long)
    }

    /// Whether both coordinates come with the text that `writing` gives them.
    pub open spec fn written_by(self, writing: spec_fn(u64) -> Seq<char>) -> bool {
        self.lat_text == writing(self.lat) && self.long_text == writing(self.long)
    }
}

impl LocationView {
    /// The location that stands for `point`, under the identifier derived
    /// from the point's texts.
    pub open spec fn at(point: PointView) -> LocationView {
        LocationView { id: location_id(point), lat: point.lat, long: point.long }
    }

    /// The coordinates of this location.
    pub open spec fn coords(self) -> Coordinates {
        (self.lat, self.long)
    }

    /// Whether the identifier is the one that `writing` gives to the
    /// coordinates.
    pub open spec fn written_by(self, writing: spec_fn(u64) -> Seq<char>) -> bool {
        self.id == written_id(writing, self.coords())
    }
}

/// The identifier of `point`.
pub fn derive_location_id(point: &Point) -> (id: String)
    ensures
        id@ == location_id(point@),
{
    let mut id = point.lat_text.clone();
    proof {
        reveal_strlit("-");
    }
    id.append("-");
    id.append(point.long_text.as_str());
    proof {
        assert("-"@ =~= seq!['-']);
        assert(id@ =~= location_id(point@));
    }
    id
}

impl Point {
    /// The coordinates of this point.
    pub fn coords(&self) -> (coords: Coordinates)
        ensures
            coords == self@.coords(),
    {
        (self.lat, self.long)
    }

    /// A copy of this point.
    pub fn duplicate(&self) -> (copy: Point)
        ensures
            copy@ == self@,
    {
        Point {
            lat: self.lat,
            long: self.long,
            lat_text: self.lat_text.clone(),
            long_text: self.long_text.clone(),
        }
    }
}

impl Location {
    /// The location that stands for `point`, under the identifier derived
    /// from the point's texts.
    pub fn at(point: &Point) -> (location: Location)
        ensures
            location@ == LocationView::at(point@),
    {
        Location { id: derive_location_id(point), lat: point.lat, long: point.long }
    }

    /// The coordinates of this location.
    pub fn coords(&self) -> (coords: Coordinates)
        ensures
            coords == self@.coords(),
    {
        (self.lat, self.long)
    }

    /// A copy of this location.
    pub fn duplicate(&self) -> (copy: Location)
        ensures
            copy@ == self@,
    {
        Location { id: self.id.clone(), lat: self.lat, long: self.long }
    }
}

/// The identifier of a point is a function of the texts that the point
/// comes with, and of nothing else: where one coordinate always comes with
/// the same text, one point always has the same identifier.
pub proof fn law_location_id_follows_writing(writing: spec_fn(u64) -> Seq<char>, point: PointView)
    requires
        point.written_by(writing),
    ensures
        location_id(point) == written_id(writing, point.coords()),
        LocationView::at(point).written_by(writing),
{
}

/// Where the writing of coordinates tells points apart, two points have the
/// same identifier exactly when they are the same point.
pub proof fn law_location_id_identifies(
    writing: spec_fn(u64) -> Seq<char>,
    a: PointView,
    b: PointView,
)
    requires
        tells_apart(writing),
        a.written_by(writing),
        b.written_by(writing),
    ensures
        location_id(a) == location_id(b) <==> a.coords() == b.coords(),
{
    assert(location_id(a) == written_id(writing, a.coords()));
    assert(location_id(b) == written_id(writing, b.coords()));
}

} // verus!
