//! Boundary rings: from points to the identifiers under which they are
//! stored, from identifiers back to points, and from two parallel coordinate
//! arrays to points. Order is kept throughout, since the order of a ring is
//! its winding.

use crate::error::{DefaultAppError, DefaultAppErrorView};
use crate::location::{
    derive_location_id, location_id, Coordinates, Point, PointView,
};
use crate::location_repo::{single_location, LocationRepo};
use crate::location_service::{ended_by, failure_of, LocationTask, LocationTaskView};
use crate::store::{
    Resumable, Step, StepView, StoreReply, StoreReplyView, StoreRequest, StoreRequestView,
};
use vstd::prelude::*;

verus! {

/// The points whose latitudes are `lats` and whose longitudes are `longs`,
/// position by position.
pub open spec fn zipped(lats: Seq<u64>, longs: Seq<u64>) -> Seq<Coordinates> {
    Seq::new(lats.len(), |i: int| (lats[i], longs[i]))
}

/// The points of two parallel coordinate arrays, where the arrays are equally
/// long; the error that names both lengths where they are not.
pub open spec fn assembled(lats: Seq<u64>, longs: Seq<u64>) -> Result<
    Seq<Coordinates>,
    DefaultAppErrorView,
> {
    if lats.len() == longs.len() {
        Ok(zipped(lats, longs))
    } else {
        Err(DefaultAppErrorView::mismatched_arrays(lats.len(), longs.len()))
    }
}

/// Pairs the latitudes and longitudes that an aggregating query returned as
/// two arrays into points, position by position. Arrays of different lengths
/// are refused.
pub fn assemble_area(lats: &Vec<u64>, longs: &Vec<u64>) -> (result: Result<
    Vec<Coordinates>,
    DefaultAppError,
>)
    ensures
        match result {
            Ok(area) => assembled(lats@, longs@) == Ok::<Seq<Coordinates>, DefaultAppErrorView>(
                area@,
            ),
            Err(error) => assembled(lats@, longs@) == Err::<Seq<Coordinates>, DefaultAppErrorView>(
                error@,
            ),
        },
{
    if lats.len() != longs.len() {
        return Err(DefaultAppError::mismatched_arrays(lats.len(), longs.len()));
    }
    let mut area: Vec<Coordinates> = Vec::new();
    let mut i: usize = 0;
    while i < lats.len()
        invariant
            i <= lats.len(),
            lats.len() == longs.len(),
            area@ == zipped(lats@, longs@).take(i as int),
        decreases lats.len() - i,
    {
        area.push((lats[i], longs[i]));
        i += 1;
        proof {
            assert(area@ =~= zipped(lats@, longs@).take(i as int));
        }
    }
    proof {
        assert(zipped(lats@, longs@).take(lats@.len() as int) =~= zipped(lats@, longs@));
    }
    Ok(area)
}

/// A copy of the points of a ring.
pub fn copy_points(points: &Vec<Point>) -> (copy: Vec<Point>)
    ensures
        copy.deep_view() == points.deep_view(),
{
    let mut copy: Vec<Point> = Vec::new();
    let mut i: usize = 0;
    while i < points.len()
        invariant
            i <= points.len(),
            copy.deep_view() == points.deep_view().take(i as int),
        decreases points.len() - i,
    {
        let ghost before = copy.deep_view();
        copy.push(points[i].duplicate());
        proof {
            assert(copy.deep_view() =~= before.push(points@[i as int]@));
            assert(copy.deep_view() =~= points.deep_view().take(i as int + 1));
        }
        i += 1;
    }
    proof {
        assert(points.deep_view().take(points@.len() as int) =~= points.deep_view());
    }
    copy
}

/// A copy of the identifiers of a ring.
pub fn copy_ids(ids: &Vec<String>) -> (copy: Vec<String>)
    ensures
        copy.deep_view() == ids.deep_view(),
{
    let mut copy: Vec<String> = Vec::new();
    let mut i: usize = 0;
    while i < ids.len()
        invariant
            i <= ids.len(),
            copy.deep_view() == ids.deep_view().take(i as int),
        decreases ids.len() - i,
    {
        let ghost before = copy.deep_view();
        copy.push(ids[i].clone());
        proof {
            assert(copy.deep_view() =~= before.push(ids@[i as int]@));
            assert(copy.deep_view() =~= ids.deep_view().take(i as int + 1));
        }
        i += 1;
    }
    proof {
        assert(ids.deep_view().take(ids@.len() as int) =~= ids.deep_view());
    }
    copy
}

/// A ring being resolved into identifiers: the points, the identifiers of
/// those resolved so far, and the find-or-create in progress for the next.
#[derive(Debug, PartialEq, Eq)]
pub struct RingWrite {
    pub points: Vec<Point>,
    pub ids: Vec<String>,
    pub current: LocationTask,
}

/// A ring being resolved into identifiers, as plain sequences.
pub struct RingWriteView {
    pub points: Seq<PointView>,
    pub ids: Seq<Seq<char>>,
    pub current: LocationTaskView,
}

impl View for RingWrite {
    type V = RingWriteView;

    open spec fn view(&self) -> RingWriteView {
        RingWriteView {
            points: self.points.deep_view(),
            ids: self.ids.deep_view(),
            current: self.current@,
        }
    }
}

impl DeepView for RingWrite {
    type V = RingWriteView;

    open spec fn deep_view(&self) -> RingWriteView {
        self@
    }
}

impl RingWriteView {
    /// The first step of resolving `points`: nothing to do for an empty ring,
    /// else the find-or-create for the first point.
    pub open spec fn ring_from_points(points: Seq<PointView>) -> StepView<
        RingWriteView,
        Seq<Seq<char>>,
    > {
        if points.len() == 0 {
            StepView::Done(Ok(Seq::empty()))
        } else {
            RingWriteView { points, ids: Seq::empty(), current: LocationTaskView::Reading }.seek(
                0,
            )
        }
    }

    /// The step that opens the find-or-create for the point at `position`.
    pub open spec fn seek(self, position: int) -> StepView<RingWriteView, Seq<Seq<char>>> {
        StepView::Ask(
            StoreRequestView::GetLocation { id: location_id(self.points[position]) },
            RingWriteView {
                points: self.points,
                ids: self.ids,
                current: LocationTaskView::Looking { point: self.points[position] },
            },
        )
    }
}

impl Resumable for RingWriteView {
    type Outcome = Seq<Seq<char>>;

    /// What the ring does with the store's reply: it hands the reply to the
    /// find-or-create in progress; when that ends with a location it notes
    /// the location's identifier and turns to the next point, or ends with
    /// all identifiers in the order of the points; when it ends with an error
    /// the ring ends with that error.
    open spec fn resume(self, reply: StoreReplyView) -> StepView<RingWriteView, Seq<Seq<char>>> {
        match self.current.resume(reply) {
            StepView::Ask(request, task) => StepView::Ask(
                request,
                RingWriteView { points: self.points, ids: self.ids, current: task },
            ),
            StepView::Done(Err(error)) => StepView::Done(Err(error)),
            StepView::Done(Ok(location)) => {
                let ids = self.ids.push(location.id);
                if ids.len() < self.points.len() {
                    RingWriteView { points: self.points, ids, current: self.current }.seek(
                        ids.len() as int,
                    )
                } else {
                    StepView::Done(Ok(ids))
                }
            },
        }
    }
}

/// Starts resolving the ring `points` into the identifiers of its points:
/// each point goes through find-or-create, one after another, and the
/// identifiers come out in the order of the points.
pub fn ring_from_points(points: Vec<Point>) -> (step: Step<RingWrite, Vec<String>>)
    ensures
        step.deep_view() == RingWriteView::ring_from_points(points.deep_view()),
{
    if points.len() == 0 {
        let ids: Vec<String> = Vec::new();
        proof {
            assert(ids.deep_view() =~= Seq::<Seq<char>>::empty());
        }
        Step::Done(Ok(ids))
    } else {
        let first = points[0].duplicate();
        let ids: Vec<String> = Vec::new();
        proof {
            assert(ids.deep_view() =~= Seq::<Seq<char>>::empty());
        }
        Step::Ask(
            StoreRequest::GetLocation { id: derive_location_id(&first) },
            RingWrite { points, ids, current: LocationTask::Looking { point: first } },
        )
    }
}

impl RingWrite {
    /// Takes the store's reply and says what the ring does next.
    pub fn resume(self, reply: StoreReply) -> (step: Step<RingWrite, Vec<String>>)
        ensures
            step.deep_view() == self@.resume(reply@),
    {
        let RingWrite { points, ids, current } = self;
        match current.resume(reply) {
            Step::Ask(request, task) => Step::Ask(request, RingWrite { points, ids, current: task }),
            Step::Done(Err(error)) => Step::Done(Err(error)),
            Step::Done(Ok(location)) => {
                let ghost before = ids.deep_view();
                let mut ids = ids;
                ids.push(location.id);
                proof {
                    assert(ids.deep_view() =~= before.push(location@.id));
                }
                if ids.len() < points.len() {
                    let next = points[ids.len()].duplicate();
                    Step::Ask(
                        StoreRequest::GetLocation { id: derive_location_id(&next) },
                        RingWrite { points, ids, current: LocationTask::Looking { point: next } },
                    )
                } else {
                    Step::Done(Ok(ids))
                }
            },
        }
    }
}

/// What to do with a boundary point whose identifier does not resolve, that
/// is, for which the store holds no row, or more than one. A failure of the
/// store is not such a point: it ends the resolution under either policy.
#[derive(Debug, Clone, Copy, PartialEq, Eq)]
pub enum ResolutionPolicy {
    /// Fail the whole ring.
    Strict,
    /// Leave the point out, count it, and go on.
    Lenient,
}

/// A ring resolved into points, with the number of points that were left out
/// because their identifiers did not resolve.
#[derive(Debug, Clone, PartialEq, Eq)]
pub struct ResolvedRing {
    pub points: Vec<Coordinates>,
    pub dropped: usize,
}

/// A resolved ring as a plain sequence.
pub struct ResolvedRingView {
    pub points: Seq<Coordinates>,
    pub dropped: nat,
}

impl View for ResolvedRing {
    type V = ResolvedRingView;

    open spec fn view(&self) -> ResolvedRingView {
        ResolvedRingView { points: self.points@, dropped: self.dropped as nat }
    }
}

impl DeepView for ResolvedRing {
    type V = ResolvedRingView;

    open spec fn deep_view(&self) -> ResolvedRingView {
        self@
    }
}

/// A ring being resolved into points: the identifiers, the points resolved
/// so far, the position of the identifier whose lookup is in progress, and
/// the policy for identifiers that do not resolve.
#[derive(Debug, Clone, PartialEq, Eq)]
pub struct RingRead {
    pub ids: Vec<String>,
    pub points: Vec<Coordinates>,
    pub next: usize,
    pub policy: ResolutionPolicy,
}

/// A ring being resolved into points, as plain sequences.
pub struct RingReadView {
    pub ids: Seq<Seq<char>>,
    pub points: Seq<Coordinates>,
    pub next: nat,
    pub policy: ResolutionPolicy,
}

impl View for RingRead {
    type V = RingReadView;

    open spec fn view(&self) -> RingReadView {
        RingReadView {
            ids: self.ids.deep_view(),
            points: self.points@,
            next: self.next as nat,
            policy: self.policy,
        }
    }
}

impl DeepView for RingRead {
    type V = RingReadView;

    open spec fn deep_view(&self) -> RingReadView {
        self@
    }
}

impl RingReadView {
    /// The first step of resolving `ids`: nothing to do for an empty ring,
    /// else the lookup of the first identifier.
    pub open spec fn ring_to_points(ids: Seq<Seq<char>>, policy: ResolutionPolicy) -> StepView<
        RingReadView,
        ResolvedRingView,
    > {
        RingReadView { ids, points: Seq::empty(), next: 0, policy }.seek()
    }

    /// The ring as resolved when no identifier is left: the points found, and
    /// as dropped every identifier that gave no point.
    pub open spec fn finished(self) -> ResolvedRingView {
        ResolvedRingView {
            points: self.points,
            dropped: if self.points.len() <= self.ids.len() {
                (self.ids.len() - self.points.len()) as nat
            } else {
                0
            },
        }
    }

    /// The lookup of the identifier at `next`, or the end of the ring when
    /// none is left.
    pub open spec fn seek(self) -> StepView<RingReadView, ResolvedRingView> {
        if self.next < self.ids.len() {
            StepView::Ask(StoreRequestView::GetLocation { id: self.ids[self.next as int] }, self)
        } else {
            StepView::Done(Ok(self.finished()))
        }
    }
}

impl Resumable for RingReadView {
    type Outcome = ResolvedRingView;

    /// What the ring does with the store's reply. Where the store returned
    /// exactly one row for the identifier, the row's point is appended and
    /// the ring turns to the next identifier. Where it returned another
    /// number of rows, the identifier does not resolve: a strict ring ends
    /// with the error that tells how many rows came back, and a lenient ring
    /// leaves the point out and turns to the next identifier. A failure of
    /// the store ends the ring with that failure under either policy, so that
    /// an outage is never taken for a missing point; so does any reply that
    /// answers no lookup of this ring.
    open spec fn resume(self, reply: StoreReplyView) -> StepView<RingReadView, ResolvedRingView> {
        match reply {
            StoreReplyView::Locations(rows) if self.next < self.ids.len() => match (
                single_location(rows),
                self.policy,
            ) {
                (Ok(location), _) => RingReadView {
                    ids: self.ids,
                    points: self.points.push(location.coords()),
                    next: self.next + 1,
                    policy: self.policy,
                }.seek(),
                (Err(error), ResolutionPolicy::Strict) => StepView::Done(Err(error)),
                (Err(_), ResolutionPolicy::Lenient) => RingReadView {
                    ids: self.ids,
                    points: self.points,
                    next: self.next + 1,
                    policy: self.policy,
                }.seek(),
            },
            other => ended_by(other),
        }
    }
}

/// Starts resolving the ring `ids` back into points: each identifier is
/// looked up, one after another, and the points come out in the order of the
/// identifiers. `policy` says what happens to an identifier that does not
/// resolve.
pub fn ring_to_points(ids: Vec<String>, policy: ResolutionPolicy) -> (step: Step<
    RingRead,
    ResolvedRing,
>)
    ensures
        step.deep_view() == RingReadView::ring_to_points(ids.deep_view(), policy),
{
    RingRead { ids, points: Vec::new(), next: 0, policy }.seek()
}

impl RingRead {
    /// Asks for the identifier at `next`, or ends the ring when none is left.
    pub fn seek(self) -> (step: Step<RingRead, ResolvedRing>)
        ensures
            step.deep_view() == self@.seek(),
    {
        if self.next < self.ids.len() {
            let id = self.ids[self.next].clone();
            Step::Ask(StoreRequest::GetLocation { id }, self)
        } else {
            Step::Done(Ok(self.finish()))
        }
    }

    /// The ring as resolved when no identifier is left.
    pub fn finish(self) -> (ring: ResolvedRing)
        ensures
            ring@ == self@.finished(),
    {
        let dropped = if self.points.len() <= self.ids.len() {
            self.ids.len() - self.points.len()
        } else {
            0
        };
        ResolvedRing { points: self.points, dropped }
    }

    /// Takes the store's reply and says what the ring does next.
    pub fn resume(self, reply: StoreReply) -> (step: Step<RingRead, ResolvedRing>)
        ensures
            step.deep_view() == self@.resume(reply@),
    {
        if self.next >= self.ids.len() {
            return Step::Done(Err(failure_of(reply)));
        }
        let RingRead { ids, points, next, policy } = self;
        match reply {
            StoreReply::Locations(rows) => match LocationRepo::location_from_rows(rows) {
                Ok(location) => {
                    let mut points = points;
                    points.push(location.coords());
                    RingRead { ids, points, next: next + 1, policy }.seek()
                },
                Err(error) => match policy {
                    ResolutionPolicy::Strict => Step::Done(Err(error)),
                    ResolutionPolicy::Lenient => RingRead {
                        ids,
                        points,
                        next: next + 1,
                        policy,
                    }.seek(),
                },
            },
            other => Step::Done(Err(failure_of(other))),
        }
    }
}

} // verus!
