//! Subdivisions and lots as they are stored: a name and a boundary ring given
//! by the identifiers of its points, in ring order.

use vstd::prelude::*;

verus! {

/// A named polygonal land area. `area` lists the identifiers of the boundary
/// points in ring order.
#[derive(Debug, Clone, PartialEq, Eq)]
pub struct Subdivision {
    pub id: String,
    pub name: String,
    pub area: Vec<String>,
}

/// A subdivision as plain sequences.
pub struct SubdivisionView {
    pub id: Seq<char>,
    pub name: Seq<char>,
    pub area: Seq<Seq<char>>,
}

impl View for Subdivision {
    type V = SubdivisionView;

    open spec fn view(&self) -> SubdivisionView {
        SubdivisionView { id: self.id@, name: self.name@, area: self.area.deep_view() }
    }
}

impl DeepView for Subdivision {
    type V = SubdivisionView;

    open spec fn deep_view(&self) -> SubdivisionView {
        self@
    }
}

/// A polygon inside a subdivision, known by its name within that subdivision.
#[derive(Debug, Clone, PartialEq, Eq)]
pub struct Lot {
    pub name: String,
    pub subdivision_id: String,
    pub area: Vec<String>,
}

/// A lot as plain sequences.
pub struct LotView {
    pub name: Seq<char>,
    pub subdivision_id: Seq<char>,
    pub area: Seq<Seq<char>>,
}

impl View for Lot {
    type V = LotView;

    open spec fn view(&self) -> LotView {
        LotView {
            name: self.name@,
            subdivision_id: self.subdivision_id@,
            area: self.area.deep_view(),
        }
    }
}

impl DeepView for Lot {
    type V = LotView;

    open spec fn deep_view(&self) -> LotView {
        self@
    }
}

/// The point that stands for a whole subdivision when its distance to
/// another point is measured.
#[derive(Debug, Clone, Copy, PartialEq, Eq)]
pub enum RepresentativePoint {
    /// The first point of the boundary ring.
    AnchorPoint,
    /// The mean of the boundary points.
    Centroid,
}

/// The identifier under which a lot is shown: its name and the identifier of
/// its subdivision, joined by a minus sign.
pub open spec fn lot_display_id(name: Seq<char>, subdivision_id: Seq<char>) -> Seq<char> {
    name + seq!['-'] + subdivision_id
}

impl Lot {
    /// The identifier under which this lot is shown.
    pub fn display_id(&self) -> (id: String)
        ensures
            id@ == lot_display_id(self.name@, self.subdivision_id@),
    {
        derive_lot_display_id(&self.name, &self.subdivision_id)
    }
}

/// The identifier under which the lot `name` of `subdivision_id` is shown.
pub fn derive_lot_display_id(name: &String, subdivision_id: &String) -> (id: String)
    ensures
        id@ == lot_display_id(name@, subdivision_id@),
{
    let mut id = name.clone();
    proof {
        reveal_strlit("-");
    }
    id.append("-");
    id.append(subdivision_id.as_str());
    proof {
        assert("-"@ =~= seq!['-']);
    }
    id
}

} // verus!
