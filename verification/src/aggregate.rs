//! The aggregate of a subdivision: the subdivision with its boundary as
//! points, and its lots, each with its boundary as points.

use crate::api_contracts::{LotDto, LotDtoView, SubdivisionDto, SubdivisionDtoView};
use crate::geometry::{
    copy_ids, ring_to_points, ResolutionPolicy, ResolvedRing, ResolvedRingView, RingRead,
    RingReadView,
};
use crate::location::Coordinates;
use crate::location_service::{ended_by, failure_of};
use crate::store::{Resumable, Step, StepView, StoreReply, StoreReplyView};
use crate::subdivision::{lot_display_id, Lot, LotView, Subdivision, SubdivisionView};
use crate::subdivision_repo::{LotsTask, LotsTaskView};
use vstd::prelude::*;

verus! {

/// A subdivision with its boundary and its lots resolved into points, and
/// the number of boundary points, over the subdivision and all its lots, that
/// were left out because their identifiers did not resolve.
#[derive(Debug, Clone, PartialEq, Eq)]
pub struct Aggregate {
    pub dto: SubdivisionDto,
    pub dropped: usize,
}

/// An aggregate as plain sequences.
pub struct AggregateView {
    pub dto: SubdivisionDtoView,
    pub dropped: usize,
}

impl View for Aggregate {
    type V = AggregateView;

    open spec fn view(&self) -> AggregateView {
        AggregateView { dto: self.dto@, dropped: self.dropped }
    }
}

impl DeepView for Aggregate {
    type V = AggregateView;

    open spec fn deep_view(&self) -> AggregateView {
        self@
    }
}

/// The count of dropped points after `more` were dropped; it stops at the
/// largest number that the machine can count to.
pub open spec fn add_dropped(so_far: usize, more: nat) -> usize {
    if so_far + more <= usize::MAX {
        (so_far + more) as usize
    } else {
        usize::MAX
    }
}

/// The lot `lot` with its boundary resolved into `points`.
pub open spec fn lot_dto(lot: LotView, points: Seq<Coordinates>) -> LotDtoView {
    LotDtoView {
        area: points,
        id: lot_display_id(lot.name, lot.subdivision_id),
        name: lot.name,
        subdivision_id: lot.subdivision_id,
    }
}

/// What the assembly of an aggregate is waiting for.
#[derive(Debug, Clone, PartialEq, Eq)]
pub enum AggregateTask {
    /// A reply for the reading of the subdivision's lots.
    Lots { subdivision: Subdivision, policy: ResolutionPolicy, reading: LotsTask },
    /// A reply for the resolution of the boundary of `lots[done.len()]`; the
    /// lots before it are resolved.
    LotRing {
        subdivision: Subdivision,
        policy: ResolutionPolicy,
        lots: Vec<Lot>,
        done: Vec<LotDto>,
        dropped: usize,
        ring: RingRead,
    },
    /// A reply for the resolution of the subdivision's own boundary.
    Boundary { subdivision: Subdivision, lots: Vec<LotDto>, dropped: usize, ring: RingRead },
}

/// The assembly of an aggregate, as plain sequences.
pub enum AggregateTaskView {
    Lots { subdivision: SubdivisionView, policy: ResolutionPolicy, reading: LotsTaskView },
    LotRing {
        subdivision: SubdivisionView,
        policy: ResolutionPolicy,
        lots: Seq<LotView>,
        done: Seq<LotDtoView>,
        dropped: usize,
        ring: RingReadView,
    },
    Boundary {
        subdivision: SubdivisionView,
        lots: Seq<LotDtoView>,
        dropped: usize,
        ring: RingReadView,
    },
}

impl View for AggregateTask {
    type V = AggregateTaskView;

    open spec fn view(&self) -> AggregateTaskView {
        match self {
            AggregateTask::Lots { subdivision, policy, reading } => AggregateTaskView::Lots {
                subdivision: subdivision@,
                policy: *policy,
                reading: reading@,
            },
            AggregateTask::LotRing {
                subdivision,
                policy,
                lots,
                done,
                dropped,
                ring,
            } => AggregateTaskView::LotRing {
                subdivision: subdivision@,
                policy: *policy,
                lots: lots.deep_view(),
                done: done.deep_view(),
                dropped: *dropped,
                ring: ring@,
            },
            AggregateTask::Boundary {
                subdivision,
                lots,
                dropped,
                ring,
            } => AggregateTaskView::Boundary {
                subdivision: subdivision@,
                lots: lots.deep_view(),
                dropped: *dropped,
                ring: ring@,
            },
        }
    }
}

impl DeepView for AggregateTask {
    type V = AggregateTaskView;

    open spec fn deep_view(&self) -> AggregateTaskView {
        self@
    }
}

impl AggregateTaskView {
    /// The first step of assembling the aggregate of `subdivision`: reading
    /// its lots.
    pub open spec fn to_dto(subdivision: SubdivisionView, policy: ResolutionPolicy) -> StepView<
        AggregateTaskView,
        AggregateView,
    > {
        AggregateTaskView::after_lots(
            subdivision,
            policy,
            LotsTaskView::get_lots_by_subdivision(subdivision.id),
        )
    }

    /// The assembly after a step of the reading of the lots: it goes on
    /// reading, ends with the reading's error, or turns to the first lot.
    pub open spec fn after_lots(
        subdivision: SubdivisionView,
        policy: ResolutionPolicy,
        reading: StepView<LotsTaskView, Seq<LotView>>,
    ) -> StepView<AggregateTaskView, AggregateView> {
        match reading {
            StepView::Ask(request, reading) => StepView::Ask(
                request,
                AggregateTaskView::Lots { subdivision, policy, reading },
            ),
            StepView::Done(Err(error)) => StepView::Done(Err(error)),
            StepView::Done(Ok(lots)) => AggregateTaskView::next_lot(subdivision, policy, lots, Seq::empty(), 0),
        }
    }

    /// With the lots `done` resolved, the assembly turns to the next of
    /// `lots` and starts resolving its ring into points; when no lot is left
    /// it turns to the subdivision's own boundary.
    pub open spec fn next_lot(
        subdivision: SubdivisionView,
        policy: ResolutionPolicy,
        lots: Seq<LotView>,
        done: Seq<LotDtoView>,
        dropped: usize,
    ) -> StepView<AggregateTaskView, AggregateView>
        decreases lots.len() - done.len(),
    {
        if done.len() < lots.len() {
            match RingReadView::ring_to_points(lots[done.len() as int].area, policy) {
                StepView::Ask(request, ring) => StepView::Ask(
                    request,
                    AggregateTaskView::LotRing { subdivision, policy, lots, done, dropped, ring },
                ),
                StepView::Done(Err(error)) => StepView::Done(Err(error)),
                StepView::Done(Ok(resolved)) => AggregateTaskView::next_lot(
                    subdivision,
                    policy,
                    lots,
                    done.push(lot_dto(lots[done.len() as int], resolved.points)),
                    add_dropped(dropped, resolved.dropped),
                ),
            }
        } else {
            AggregateTaskView::after_boundary(
                subdivision,
                done,
                dropped,
                RingReadView::ring_to_points(subdivision.area, policy),
            )
        }
    }

    /// The assembly after a step of the subdivision's own ring: it goes on
    /// resolving, ends with the ring's error, or ends with the aggregate, the
    /// boundary points in ring order and the lots in the order in which the
    /// store listed them.
    pub open spec fn after_boundary(
        subdivision: SubdivisionView,
        lots: Seq<LotDtoView>,
        dropped: usize,
        ring: StepView<RingReadView, ResolvedRingView>,
    ) -> StepView<AggregateTaskView, AggregateView> {
        match ring {
            StepView::Ask(request, ring) => StepView::Ask(
                request,
                AggregateTaskView::Boundary { subdivision, lots, dropped, ring },
            ),
            StepView::Done(Err(error)) => StepView::Done(Err(error)),
            StepView::Done(Ok(resolved)) => StepView::Done(
                Ok(
                    AggregateView {
                        dto: SubdivisionDtoView {
                            id: subdivision.id,
                            name: subdivision.name,
                            area: resolved.points,
                            lots: Some(lots),
                        },
                        dropped: add_dropped(dropped, resolved.dropped),
                    },
                ),
            ),
        }
    }
}

impl Resumable for AggregateTaskView {
    type Outcome = AggregateView;

    /// What the assembly does with the store's reply: the reply belongs to
    /// the reading of the lots or to the ring in progress, and any error of
    /// theirs ends the assembly. A reply that comes when no lot is left to
    /// resolve answers no request, and ends the assembly with an error.
    open spec fn resume(self, reply: StoreReplyView) -> StepView<
        AggregateTaskView,
        AggregateView,
    > {
        match self {
            AggregateTaskView::Lots { subdivision, policy, reading } => AggregateTaskView::after_lots(
                subdivision,
                policy,
                reading.resume(reply),
            ),
            AggregateTaskView::LotRing {
                subdivision,
                policy,
                lots,
                done,
                dropped,
                ring,
            } => if done.len() < lots.len() {
                match ring.resume(reply) {
                    StepView::Ask(request, ring) => StepView::Ask(
                        request,
                        AggregateTaskView::LotRing {
                            subdivision,
                            policy,
                            lots,
                            done,
                            dropped,
                            ring,
                        },
                    ),
                    StepView::Done(Err(error)) => StepView::Done(Err(error)),
                    StepView::Done(Ok(resolved)) => AggregateTaskView::next_lot(
                        subdivision,
                        policy,
                        lots,
                        done.push(lot_dto(lots[done.len() as int], resolved.points)),
                        add_dropped(dropped, resolved.dropped),
                    ),
                }
            } else {
                ended_by(reply)
            },
            AggregateTaskView::Boundary {
                subdivision,
                lots,
                dropped,
                ring,
            } => AggregateTaskView::after_boundary(subdivision, lots, dropped, ring.resume(reply)),
        }
    }
}

/// The count of dropped points after `more` were dropped.
fn count_dropped(so_far: usize, more: usize) -> (total: usize)
    ensures
        total == add_dropped(so_far, more as nat),
{
    if more <= usize::MAX - so_far {
        so_far + more
    } else {
        usize::MAX
    }
}

impl AggregateTask {
    /// Appends to `done` the lot `lots[done.len()]` with its boundary as
    /// `resolved` gives it.
    fn push_lot_dto(lots: &Vec<Lot>, done: Vec<LotDto>, resolved: ResolvedRing) -> (extended: Vec<
        LotDto,
    >)
        requires
            done@.len() < lots@.len(),
        ensures
            extended@.len() == done@.len() + 1,
            extended.deep_view() == done.deep_view().push(
                lot_dto(lots.deep_view()[done@.len() as int], resolved@.points),
            ),
    {
        let lot = &lots[done.len()];
        let dto = LotDto {
            area: resolved.points,
            id: lot.display_id(),
            name: lot.name.clone(),
            subdivision_id: lot.subdivision_id.clone(),
        };
        let mut extended = done;
        extended.push(dto);
        proof {
            assert(extended.deep_view() =~= done.deep_view().push(dto@));
        }
        extended
    }

    /// The assembly after a step of the reading of the lots.
    pub fn after_lots(
        subdivision: Subdivision,
        policy: ResolutionPolicy,
        reading: Step<LotsTask, Vec<Lot>>,
    ) -> (step: Step<AggregateTask, Aggregate>)
        ensures
            step.deep_view() == AggregateTaskView::after_lots(
                subdivision@,
                policy,
                reading.deep_view(),
            ),
    {
        match reading {
            Step::Ask(request, reading) => Step::Ask(
                request,
                AggregateTask::Lots { subdivision, policy, reading },
            ),
            Step::Done(Err(error)) => Step::Done(Err(error)),
            Step::Done(Ok(lots)) => {
                let done: Vec<LotDto> = Vec::new();
                proof {
                    assert(done.deep_view() =~= Seq::<LotDtoView>::empty());
                }
                AggregateTask::next_lot(subdivision, policy, lots, done, 0)
            },
        }
    }

    /// With the lots `done` resolved, turns to the next of `lots`, or to the
    /// subdivision's own boundary when none is left.
    pub fn next_lot(
        subdivision: Subdivision,
        policy: ResolutionPolicy,
        lots: Vec<Lot>,
        done: Vec<LotDto>,
        dropped: usize,
    ) -> (step: Step<AggregateTask, Aggregate>)
        ensures
            step.deep_view() == AggregateTaskView::next_lot(
                subdivision@,
                policy,
                lots.deep_view(),
                done.deep_view(),
                dropped,
            ),
        decreases lots@.len() - done@.len(),
    {
        if done.len() < lots.len() {
            let ids = copy_ids(&lots[done.len()].area);
            match ring_to_points(ids, policy) {
                Step::Ask(request, ring) => Step::Ask(
                    request,
                    AggregateTask::LotRing { subdivision, policy, lots, done, dropped, ring },
                ),
                Step::Done(Err(error)) => Step::Done(Err(error)),
                Step::Done(Ok(resolved)) => {
                    let total = count_dropped(dropped, resolved.dropped);
                    let extended = AggregateTask::push_lot_dto(&lots, done, resolved);
                    AggregateTask::next_lot(subdivision, policy, lots, extended, total)
                },
            }
        } else {
            let ids = copy_ids(&subdivision.area);
            AggregateTask::after_boundary(subdivision, done, dropped, ring_to_points(ids, policy))
        }
    }

    /// The assembly after a step of the subdivision's own ring.
    pub fn after_boundary(
        subdivision: Subdivision,
        lots: Vec<LotDto>,
        dropped: usize,
        ring: Step<RingRead, ResolvedRing>,
    ) -> (step: Step<AggregateTask, Aggregate>)
        ensures
            step.deep_view() == AggregateTaskView::after_boundary(
                subdivision@,
                lots.deep_view(),
                dropped,
                ring.deep_view(),
            ),
    {
        match ring {
            Step::Ask(request, ring) => Step::Ask(
                request,
                AggregateTask::Boundary { subdivision, lots, dropped, ring },
            ),
            Step::Done(Err(error)) => Step::Done(Err(error)),
            Step::Done(Ok(resolved)) => {
                let total = count_dropped(dropped, resolved.dropped);
                Step::Done(
                    Ok(
                        Aggregate {
                            dto: SubdivisionDto {
                                id: subdivision.id,
                                name: subdivision.name,
                                area: resolved.points,
                                lots: Some(lots),
                            },
                            dropped: total,
                        },
                    ),
                )
            },
        }
    }

    /// Takes the store's reply and says what the assembly does next.
    pub fn resume(self, reply: StoreReply) -> (step: Step<AggregateTask, Aggregate>)
        ensures
            step.deep_view() == self@.resume(reply@),
    {
        match self {
            AggregateTask::Lots { subdivision, policy, reading } => AggregateTask::after_lots(
                subdivision,
                policy,
                reading.resume(reply),
            ),
            AggregateTask::LotRing { subdivision, policy, lots, done, dropped, ring } => {
                if done.len() < lots.len() {
                    match ring.resume(reply) {
                        Step::Ask(request, ring) => Step::Ask(
                            request,
                            AggregateTask::LotRing {
                                subdivision,
                                policy,
                                lots,
                                done,
                                dropped,
                                ring,
                            },
                        ),
                        Step::Done(Err(error)) => Step::Done(Err(error)),
                        Step::Done(Ok(resolved)) => {
                            let total = count_dropped(dropped, resolved.dropped);
                            let extended = AggregateTask::push_lot_dto(&lots, done, resolved);
                            AggregateTask::next_lot(subdivision, policy, lots, extended, total)
                        },
                    }
                } else {
                    Step::Done(Err(failure_of(reply)))
                }
            },
            AggregateTask::Boundary {
                subdivision,
                lots,
                dropped,
                ring,
            } => AggregateTask::after_boundary(subdivision, lots, dropped, ring.resume(reply)),
        }
    }
}

} // verus!
