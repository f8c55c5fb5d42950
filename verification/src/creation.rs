//! Creating subdivisions and lots: every point of a boundary goes through
//! the registry first, and the entity is written with its boundary only when
//! every point has its identifier.

use crate::api_contracts::{LotRequest, LotRequestView, SubdivisionRequestView};
use crate::geometry::{copy_ids, copy_points, ring_from_points, RingWrite, RingWriteView};
use crate::location_service::{ended_by, failure_of};
use crate::store::{
    Resumable, Step, StepView, StoreReply, StoreReplyView, StoreRequest, StoreRequestView,
};
use crate::subdivision::{lot_display_id, Lot, LotView, Subdivision, SubdivisionView};
use vstd::prelude::*;

verus! {

/// What a creation is about to store once its ring is resolved.
#[derive(Debug, Clone, PartialEq, Eq)]
pub enum Pending {
    Subdivision { id: String, name: String },
    Lot { id: String, name: String, subdivision_id: String },
}

/// A pending entity as plain sequences.
pub enum PendingView {
    Subdivision { id: Seq<char>, name: Seq<char> },
    Lot { id: Seq<char>, name: Seq<char>, subdivision_id: Seq<char> },
}

impl View for Pending {
    type V = PendingView;

    open spec fn view(&self) -> PendingView {
        match self {
            Pending::Subdivision { id, name } => PendingView::Subdivision { id: id@, name: name@ },
            Pending::Lot { id, name, subdivision_id } => PendingView::Lot {
                id: id@,
                name: name@,
                subdivision_id: subdivision_id@,
            },
        }
    }
}

impl PendingView {
    /// The identifier with which the creation answers.
    pub open spec fn id(self) -> Seq<char> {
        match self {
            PendingView::Subdivision { id, .. } => id,
            PendingView::Lot { id, .. } => id,
        }
    }

    /// The request that stores the entity with the boundary `area`.
    pub open spec fn persist(self, area: Seq<Seq<char>>) -> StoreRequestView {
        match self {
            PendingView::Subdivision { id, name } => StoreRequestView::CreateSubdivision {
                subdivision: SubdivisionView { id, name, area },
            },
            PendingView::Lot { name, subdivision_id, .. } => StoreRequestView::CreateLot {
                lot: LotView { name, subdivision_id, area },
            },
        }
    }
}

/// What the creation of a subdivision or of a lot is waiting for.
#[derive(Debug, PartialEq, Eq)]
pub enum CreateTask {
    /// A reply for the resolution of the boundary into identifiers.
    Resolving { entity: Pending, ring: RingWrite },
    /// The outcome of storing the entity and its boundary.
    Persisting { id: String },
}

/// A creation as plain sequences.
pub enum CreateTaskView {
    Resolving { entity: PendingView, ring: RingWriteView },
    Persisting { id: Seq<char> },
}

impl View for CreateTask {
    type V = CreateTaskView;

    open spec fn view(&self) -> CreateTaskView {
        match self {
            CreateTask::Resolving { entity, ring } => CreateTaskView::Resolving {
                entity: entity@,
                ring: ring@,
            },
            CreateTask::Persisting { id } => CreateTaskView::Persisting { id: id@ },
        }
    }
}

impl DeepView for CreateTask {
    type V = CreateTaskView;

    open spec fn deep_view(&self) -> CreateTaskView {
        self@
    }
}

impl CreateTaskView {
    /// The creation after a step of its ring: it goes on resolving, ends with
    /// the ring's error, or, once every point has its identifier, asks the
    /// store to write the entity with its boundary as one atomic unit.
    pub open spec fn after_ring(
        entity: PendingView,
        ring: StepView<RingWriteView, Seq<Seq<char>>>,
    ) -> StepView<CreateTaskView, Seq<char>> {
        match ring {
            StepView::Ask(request, ring) => StepView::Ask(
                request,
                CreateTaskView::Resolving { entity, ring },
            ),
            StepView::Done(Err(error)) => StepView::Done(Err(error)),
            StepView::Done(Ok(area)) => StepView::Ask(
                entity.persist(area),
                CreateTaskView::Persisting { id: entity.id() },
            ),
        }
    }

    /// The first step of creating the subdivision that `request` describes.
    /// The lots that `request` may carry are not part of this operation.
    pub open spec fn create(request: SubdivisionRequestView) -> StepView<
        CreateTaskView,
        Seq<char>,
    > {
        CreateTaskView::after_ring(
            PendingView::Subdivision { id: request.id, name: request.name },
            RingWriteView::ring_from_points(request.area),
        )
    }

    /// The first step of creating the lot that `request` describes.
    pub open spec fn create_lot(request: LotRequestView) -> StepView<CreateTaskView, Seq<char>> {
        CreateTaskView::after_ring(
            PendingView::Lot {
                id: request.id,
                name: request.name,
                subdivision_id: request.subdivision_id,
            },
            RingWriteView::ring_from_points(request.area),
        )
    }
}

impl Resumable for CreateTaskView {
    type Outcome = Seq<char>;

    /// What the creation does with the store's reply. While resolving, the
    /// reply belongs to the ring. Once the write is confirmed the creation
    /// ends with the identifier of what was created.
    open spec fn resume(self, reply: StoreReplyView) -> StepView<CreateTaskView, Seq<char>> {
        match (self, reply) {
            (CreateTaskView::Resolving { entity, ring }, reply) => CreateTaskView::after_ring(
                entity,
                ring.resume(reply),
            ),
            (CreateTaskView::Persisting { id }, StoreReplyView::Completed) => StepView::Done(
                Ok(id),
            ),
            (_, other) => ended_by(other),
        }
    }
}

impl CreateTask {
    /// The creation after a step of its ring.
    pub fn after_ring(entity: Pending, ring: Step<RingWrite, Vec<String>>) -> (step: Step<
        CreateTask,
        String,
    >)
        ensures
            step.deep_view() == CreateTaskView::after_ring(entity@, ring.deep_view()),
    {
        match ring {
            Step::Ask(request, ring) => Step::Ask(request, CreateTask::Resolving { entity, ring }),
            Step::Done(Err(error)) => Step::Done(Err(error)),
            Step::Done(Ok(area)) => match entity {
                Pending::Subdivision { id, name } => Step::Ask(
                    StoreRequest::CreateSubdivision {
                        subdivision: Subdivision { id: id.clone(), name, area },
                    },
                    CreateTask::Persisting { id },
                ),
                Pending::Lot { id, name, subdivision_id } => Step::Ask(
                    StoreRequest::CreateLot { lot: Lot { name, subdivision_id, area } },
                    CreateTask::Persisting { id },
                ),
            },
        }
    }

    /// Takes the store's reply and says what the creation does next.
    pub fn resume(self, reply: StoreReply) -> (step: Step<CreateTask, String>)
        ensures
            step.deep_view() == self@.resume(reply@),
    {
        match (self, reply) {
            (CreateTask::Resolving { entity, ring }, reply) => CreateTask::after_ring(
                entity,
                ring.resume(reply),
            ),
            (CreateTask::Persisting { id }, StoreReply::Completed) => Step::Done(Ok(id)),
            (_, other) => Step::Done(Err(failure_of(other))),
        }
    }
}

/// The lot that `request` describes, with the boundary `area`.
pub open spec fn lot_entity(request: LotRequestView, area: Seq<Seq<char>>) -> LotView {
    LotView { name: request.name, subdivision_id: request.subdivision_id, area }
}

/// What the creation of many lots is waiting for.
#[derive(Debug, PartialEq, Eq)]
pub enum CreateLotsTask {
    /// A reply for the resolution of the boundary of `requests[lots.len()]`; the
    /// lots before it are resolved.
    Resolving { requests: Vec<LotRequest>, lots: Vec<Lot>, ring: RingWrite },
    /// The outcome of storing all lots and their boundaries.
    Persisting { lots: Vec<Lot> },
}

/// The creation of many lots, as plain sequences.
pub enum CreateLotsTaskView {
    Resolving { requests: Seq<LotRequestView>, lots: Seq<LotView>, ring: RingWriteView },
    Persisting { lots: Seq<LotView> },
}

impl View for CreateLotsTask {
    type V = CreateLotsTaskView;

    open spec fn view(&self) -> CreateLotsTaskView {
        match self {
            CreateLotsTask::Resolving { requests, lots, ring } => CreateLotsTaskView::Resolving {
                requests: requests.deep_view(),
                lots: lots.deep_view(),
                ring: ring@,
            },
            CreateLotsTask::Persisting { lots } => CreateLotsTaskView::Persisting {
                lots: lots.deep_view(),
            },
        }
    }
}

impl DeepView for CreateLotsTask {
    type V = CreateLotsTaskView;

    open spec fn deep_view(&self) -> CreateLotsTaskView {
        self@
    }
}

impl CreateLotsTaskView {
    /// With `lots` resolved, the creation turns to the next of `requests`: it
    /// starts resolving that lot's ring. When no lot is left it asks the
    /// store to write all lots with their boundaries as one atomic unit, or
    /// ends at once where there is no lot at all.
    pub open spec fn turn_to_next(requests: Seq<LotRequestView>, lots: Seq<LotView>) -> StepView<
        CreateLotsTaskView,
        Seq<LotView>,
    >
        decreases requests.len() - lots.len(),
    {
        if lots.len() < requests.len() {
            match RingWriteView::ring_from_points(requests[lots.len() as int].area) {
                StepView::Ask(request, ring) => StepView::Ask(
                    request,
                    CreateLotsTaskView::Resolving { requests, lots, ring },
                ),
                StepView::Done(Err(error)) => StepView::Done(Err(error)),
                StepView::Done(Ok(area)) => CreateLotsTaskView::turn_to_next(
                    requests,
                    lots.push(lot_entity(requests[lots.len() as int], area)),
                ),
            }
        } else if lots.len() == 0 {
            StepView::Done(Ok(lots))
        } else {
            StepView::Ask(
                StoreRequestView::CreateLots { lots },
                CreateLotsTaskView::Persisting { lots },
            )
        }
    }
}

impl Resumable for CreateLotsTaskView {
    type Outcome = Seq<LotView>;

    /// What the creation does with the store's reply. While resolving, the
    /// reply belongs to the ring in progress; a ring's error ends the whole
    /// creation before anything is written. Once the write is confirmed the
    /// creation ends with the lots as they were stored. A reply that comes
    /// when no ring is in progress answers no request, and ends the creation
    /// with an error.
    open spec fn resume(self, reply: StoreReplyView) -> StepView<
        CreateLotsTaskView,
        Seq<LotView>,
    > {
        match (self, reply) {
            (CreateLotsTaskView::Resolving { requests, lots, ring }, reply) => if lots.len()
                < requests.len() {
                match ring.resume(reply) {
                    StepView::Ask(request, ring) => StepView::Ask(
                        request,
                        CreateLotsTaskView::Resolving { requests, lots, ring },
                    ),
                    StepView::Done(Err(error)) => StepView::Done(Err(error)),
                    StepView::Done(Ok(area)) => CreateLotsTaskView::turn_to_next(
                        requests,
                        lots.push(lot_entity(requests[lots.len() as int], area)),
                    ),
                }
            } else {
                ended_by(reply)
            },
            (CreateLotsTaskView::Persisting { lots }, StoreReplyView::Completed) => StepView::Done(
                Ok(lots),
            ),
            (_, other) => ended_by(other),
        }
    }
}

impl CreateLotsTask {
    /// Appends to `lots` the lot that `requests[lots.len()]` describes, with the
    /// boundary `area`.
    fn push_lot(requests: &Vec<LotRequest>, lots: Vec<Lot>, area: Vec<String>) -> (extended: Vec<
        Lot,
    >)
        requires
            lots@.len() < requests@.len(),
        ensures
            extended@.len() == lots@.len() + 1,
            extended.deep_view() == lots.deep_view().push(
                lot_entity(requests.deep_view()[lots@.len() as int], area.deep_view()),
            ),
    {
        let request = &requests[lots.len()];
        let lot = Lot {
            name: request.name.clone(),
            subdivision_id: request.subdivision_id.clone(),
            area,
        };
        let mut extended = lots;
        extended.push(lot);
        proof {
            assert(extended.deep_view() =~= lots.deep_view().push(lot@));
        }
        extended
    }

    /// With `lots` resolved, turns to the next of `requests`, or to the write
    /// when none is left.
    pub fn turn_to_next(requests: Vec<LotRequest>, lots: Vec<Lot>) -> (step: Step<
        CreateLotsTask,
        Vec<Lot>,
    >)
        ensures
            step.deep_view() == CreateLotsTaskView::turn_to_next(
                requests.deep_view(),
                lots.deep_view(),
            ),
        decreases requests@.len() - lots@.len(),
    {
        if lots.len() < requests.len() {
            let points = copy_points(&requests[lots.len()].area);
            match ring_from_points(points) {
                Step::Ask(request, ring) => Step::Ask(
                    request,
                    CreateLotsTask::Resolving { requests, lots, ring },
                ),
                Step::Done(Err(error)) => Step::Done(Err(error)),
                Step::Done(Ok(area)) => {
                    let extended = CreateLotsTask::push_lot(&requests, lots, area);
                    CreateLotsTask::turn_to_next(requests, extended)
                },
            }
        } else if lots.len() == 0 {
            Step::Done(Ok(lots))
        } else {
            let request = StoreRequest::CreateLots { lots: copy_lots(&lots) };
            Step::Ask(request, CreateLotsTask::Persisting { lots })
        }
    }

    /// Takes the store's reply and says what the creation does next.
    pub fn resume(self, reply: StoreReply) -> (step: Step<CreateLotsTask, Vec<Lot>>)
        ensures
            step.deep_view() == self@.resume(reply@),
    {
        match (self, reply) {
            (CreateLotsTask::Resolving { requests, lots, ring }, reply) => {
                if lots.len() < requests.len() {
                    match ring.resume(reply) {
                        Step::Ask(request, ring) => Step::Ask(
                            request,
                            CreateLotsTask::Resolving { requests, lots, ring },
                        ),
                        Step::Done(Err(error)) => Step::Done(Err(error)),
                        Step::Done(Ok(area)) => {
                            let extended = CreateLotsTask::push_lot(&requests, lots, area);
                            CreateLotsTask::turn_to_next(requests, extended)
                        },
                    }
                } else {
                    Step::Done(Err(failure_of(reply)))
                }
            },
            (CreateLotsTask::Persisting { lots }, StoreReply::Completed) => Step::Done(Ok(lots)),
            (_, other) => Step::Done(Err(failure_of(other))),
        }
    }
}

/// A copy of `lots`.
pub fn copy_lots(lots: &Vec<Lot>) -> (copy: Vec<Lot>)
    ensures
        copy.deep_view() == lots.deep_view(),
{
    let mut copy: Vec<Lot> = Vec::new();
    let mut i: usize = 0;
    while i < lots.len()
        invariant
            i <= lots.len(),
            copy.deep_view() == lots.deep_view().take(i as int),
        decreases lots.len() - i,
    {
        let ghost before = copy.deep_view();
        let lot = &lots[i];
        copy.push(
            Lot {
                name: lot.name.clone(),
                subdivision_id: lot.subdivision_id.clone(),
                area: copy_ids(&lot.area),
            },
        );
        proof {
            assert(copy.deep_view() =~= before.push(lot@));
            assert(copy.deep_view() =~= lots.deep_view().take(i as int + 1));
        }
        i += 1;
    }
    proof {
        assert(lots.deep_view().take(lots@.len() as int) =~= lots.deep_view());
    }
    copy
}

/// The identifiers under which `lots` are shown, in the order of the lots.
pub open spec fn lot_display_ids(lots: Seq<LotView>) -> Seq<Seq<char>> {
    Seq::new(lots.len(), |i: int| lot_display_id(lots[i].name, lots[i].subdivision_id))
}

/// The identifiers under which the lots of a finished batch creation are
/// reported.
pub fn created_lot_ids(lots: &Vec<Lot>) -> (ids: Vec<String>)
    ensures
        ids.deep_view() == lot_display_ids(lots.deep_view()),
{
    let mut ids: Vec<String> = Vec::new();
    let mut i: usize = 0;
    while i < lots.len()
        invariant
            i <= lots.len(),
            ids.deep_view() == lot_display_ids(lots.deep_view()).take(i as int),
        decreases lots.len() - i,
    {
        let ghost before = ids.deep_view();
        let id = lots[i].display_id();
        ids.push(id);
        proof {
            assert(ids.deep_view() =~= before.push(id@));
            assert(ids.deep_view() =~= lot_display_ids(lots.deep_view()).take(i as int + 1));
        }
        i += 1;
    }
    proof {
        let all = lot_display_ids(lots.deep_view());
        assert(all.take(lots@.len() as int) =~= all);
    }
    ids
}

} // verus!
