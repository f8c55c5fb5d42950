//! What whole operations achieve when they are run against the store: what a
//! creation leaves behind, what the reading of lots returns, and that the
//! aggregate of a subdivision gives back the boundary with which the
//! subdivision was created.

use crate::api_contracts::{
    LotDtoView, LotRequestView, SubdivisionDtoView, SubdivisionRequestView,
};
use crate::error::DefaultAppErrorView;
use crate::geometry::{ResolutionPolicy, ResolvedRingView, RingReadView, RingWriteView};
use crate::location::{tells_apart, LocationView, PointView};
use crate::location_table::{count_with_id, ids_unique, table_written};
use crate::round_trip::{
    coords_of, ids_of, law_ring_from_points, law_ring_to_points, lemma_points_at_derived_ids,
    lemma_table_with_written_points, points_at, points_written_by, resolves, with_points,
};
use crate::store::{Resumable, StepView, StoreReplyView, StoreRequestView};
use crate::store_model::{
    carries, count_lots, lemma_run_carried, lemma_run_with_more_fuel, lot_area, lot_keys_unique,
    lot_rows, lots_of, run, StoreModel,
};
use crate::subdivision::{LotView, SubdivisionView};
use crate::subdivision_repo::LotsTaskView;
use crate::aggregate::{add_dropped, lot_dto, AggregateTaskView, AggregateView};
use crate::creation::{lot_entity, CreateLotsTaskView, CreateTaskView, PendingView};
use vstd::prelude::*;

verus! {

/// The subdivision that the creation of `request` stores: its boundary as the
/// identifiers derived from the points, in ring order.
pub open spec fn created_subdivision(request: SubdivisionRequestView) -> SubdivisionView {
    SubdivisionView { id: request.id, name: request.name, area: ids_of(request.area) }
}

/// The lot that the creation of `request` stores.
pub open spec fn created_lot(request: LotRequestView) -> LotView {
    lot_entity(request, ids_of(request.area))
}

/// A creation stores every point of the boundary that was not stored, then
/// writes the entity with the identifiers of the points in ring order, and
/// ends with the entity's identifier.
pub proof fn lemma_create_entity(
    store: StoreModel,
    entity: PendingView,
    points: Seq<PointView>,
    fuel: nat,
)
    requires
        ids_unique(store.locations),
        fuel >= 2 * points.len() + 1,
    ensures
        run(
            store,
            CreateTaskView::after_ring(entity, RingWriteView::ring_from_points(points)),
            fuel,
        ) == Some(
            (
                with_points(store, points).after(entity.persist(ids_of(points))),
                Ok::<Seq<char>, DefaultAppErrorView>(entity.id()),
            ),
        ),
{
    let lift = |ring: StepView<RingWriteView, Seq<Seq<char>>>|
        CreateTaskView::after_ring(entity, ring);
    let wrap = |ring: RingWriteView| CreateTaskView::Resolving { entity, ring };
    assert(carries(lift, wrap)) by {
        assert forall|request: StoreRequestView, task: RingWriteView, reply: StoreReplyView|
            #![trigger lift(StepView::Ask(request, task)), task.resume(reply)]
            lift(StepView::Ask(request, task)) == StepView::<CreateTaskView, Seq<char>>::Ask(
                request,
                wrap(task),
            ) && wrap(task).resume(reply) == lift(task.resume(reply)) by {}
    }
    let inner = RingWriteView::ring_from_points(points);
    let enough = 2 * points.len();
    law_ring_from_points(store, points, enough);
    let stored = with_points(store, points);
    let persist = entity.persist(ids_of(points));
    let last = lift(StepView::Done(Ok(ids_of(points))));
    assert(last == StepView::<CreateTaskView, Seq<char>>::Ask(
        persist,
        CreateTaskView::Persisting { id: entity.id() },
    ));
    assert(stored.reply(persist) == StoreReplyView::Completed);
    let ended = StepView::<CreateTaskView, Seq<char>>::Done(Ok(entity.id()));
    assert(run(stored.after(persist), ended, 0) == Some(
        (stored.after(persist), Ok::<Seq<char>, DefaultAppErrorView>(entity.id())),
    ));
    assert(run(stored, last, 1) == run(stored.after(persist), ended, 0));
    lemma_run_carried(store, inner, lift, wrap, enough, 1);
    lemma_run_with_more_fuel(store, lift(inner), enough + 1, (fuel - enough - 1) as nat);
}

/// Creating a subdivision stores every point of its boundary that was not
/// stored, then the subdivision with the identifiers of the points in ring
/// order, and ends with the subdivision's identifier.
pub proof fn law_create(store: StoreModel, request: SubdivisionRequestView, fuel: nat)
    requires
        ids_unique(store.locations),
        fuel >= 2 * request.area.len() + 1,
    ensures
        run(store, CreateTaskView::create(request), fuel) == Some(
            (
                with_points(store, request.area).after(
                    StoreRequestView::CreateSubdivision {
                        subdivision: created_subdivision(request),
                    },
                ),
                Ok::<Seq<char>, DefaultAppErrorView>(request.id),
            ),
        ),
{
    lemma_create_entity(
        store,
        PendingView::Subdivision { id: request.id, name: request.name },
        request.area,
        fuel,
    );
}

/// Creating a lot stores every point of its boundary that was not stored,
/// then the lot with the identifiers of the points in ring order, and ends
/// with the identifier that the request carried.
pub proof fn law_create_lot(store: StoreModel, request: LotRequestView, fuel: nat)
    requires
        ids_unique(store.locations),
        fuel >= 2 * request.area.len() + 1,
    ensures
        run(store, CreateTaskView::create_lot(request), fuel) == Some(
            (
                with_points(store, request.area).after(
                    StoreRequestView::CreateLot { lot: created_lot(request) },
                ),
                Ok::<Seq<char>, DefaultAppErrorView>(request.id),
            ),
        ),
{
    lemma_create_entity(
        store,
        PendingView::Lot {
            id: request.id,
            name: request.name,
            subdivision_id: request.subdivision_id,
        },
        request.area,
        fuel,
    );
}

/// The lots that the creation of `requests` stores, in the order of `requests`.
pub open spec fn created_lots(requests: Seq<LotRequestView>) -> Seq<LotView> {
    Seq::new(requests.len(), |i: int| created_lot(requests[i]))
}

/// The store with every boundary point of the lots of `requests` from position
/// `from` on stored unless it was there.
pub open spec fn with_lot_points(store: StoreModel, requests: Seq<LotRequestView>, from: nat)
    -> StoreModel
    decreases requests.len() - from,
{
    if from >= requests.len() {
        store
    } else {
        with_lot_points(with_points(store, requests[from as int].area), requests, from + 1)
    }
}

/// The number of boundary points of the lots of `requests` from position `from`
/// on.
pub open spec fn points_in(requests: Seq<LotRequestView>, from: nat) -> nat
    decreases requests.len() - from,
{
    if from >= requests.len() {
        0
    } else {
        requests[from as int].area.len() + points_in(requests, from + 1)
    }
}

/// The store after `lots` were written in one unit; the store as it is where
/// there is no lot to write.
pub open spec fn with_lots(store: StoreModel, lots: Seq<LotView>) -> StoreModel {
    if lots.len() == 0 {
        store
    } else {
        store.after(StoreRequestView::CreateLots { lots })
    }
}

/// With the first `position` lots resolved, the creation of many lots ends
/// with all lots stored in one write.
pub proof fn lemma_create_lots_from(
    store: StoreModel,
    requests: Seq<LotRequestView>,
    position: nat,
    fuel: nat,
)
    requires
        ids_unique(store.locations),
        position <= requests.len(),
        fuel >= 2 * points_in(requests, position) + 1,
    ensures
        run(
            store,
            CreateLotsTaskView::turn_to_next(
                requests,
                created_lots(requests).take(position as int),
            ),
            fuel,
        ) == Some(
            (
                with_lots(with_lot_points(store, requests, position), created_lots(requests)),
                Ok::<Seq<LotView>, DefaultAppErrorView>(created_lots(requests)),
            ),
        ),
        ids_unique(with_lot_points(store, requests, position).locations),
    decreases requests.len() - position,
{
    let all = created_lots(requests);
    let lots = all.take(position as int);
    if position < requests.len() {
        let request = requests[position as int];
        let lift = |ring: StepView<RingWriteView, Seq<Seq<char>>>|
            match ring {
                StepView::Ask(request, ring) => StepView::<
                    CreateLotsTaskView,
                    Seq<LotView>,
                >::Ask(request, CreateLotsTaskView::Resolving { requests, lots, ring }),
                StepView::Done(Err(error)) => StepView::Done(Err(error)),
                StepView::Done(Ok(area)) => CreateLotsTaskView::turn_to_next(
                    requests,
                    lots.push(lot_entity(request, area)),
                ),
            };
        let wrap = |ring: RingWriteView| CreateLotsTaskView::Resolving { requests, lots, ring };
        assert(carries(lift, wrap)) by {
            assert forall|request: StoreRequestView, task: RingWriteView, reply: StoreReplyView|
                #![trigger lift(StepView::Ask(request, task)), task.resume(reply)]
                lift(StepView::Ask(request, task)) == StepView::<
                    CreateLotsTaskView,
                    Seq<LotView>,
                >::Ask(request, wrap(task)) && wrap(task).resume(reply) == lift(
                    task.resume(reply),
                ) by {}
        }
        let inner = RingWriteView::ring_from_points(request.area);
        assert(CreateLotsTaskView::turn_to_next(requests, lots) == lift(inner));
        let enough = 2 * request.area.len();
        law_ring_from_points(store, request.area, enough);
        let stored = with_points(store, request.area);
        assert(lots.push(created_lot(request)) =~= all.take(position as int + 1));
        let rest = (fuel - enough) as nat;
        lemma_create_lots_from(stored, requests, position + 1, rest);
        lemma_run_carried(store, inner, lift, wrap, enough, rest);
    } else {
        assert(lots =~= all);
        if all.len() > 0 {
            let persist = StoreRequestView::CreateLots { lots: all };
            let ended = StepView::<CreateLotsTaskView, Seq<LotView>>::Done(Ok(all));
            assert(run(store.after(persist), ended, (fuel - 1) as nat) == Some(
                (store.after(persist), Ok::<Seq<LotView>, DefaultAppErrorView>(all)),
            ));
        }
    }
}

/// Creating many lots stores every boundary point that was not stored, then
/// all lots in one write, each with the identifiers of its points in ring
/// order, and ends with the lots as they were stored. Where there is no lot,
/// nothing is written.
pub proof fn law_create_lots(store: StoreModel, requests: Seq<LotRequestView>, fuel: nat)
    requires
        ids_unique(store.locations),
        fuel >= 2 * points_in(requests, 0) + 1,
    ensures
        run(store, CreateLotsTaskView::turn_to_next(requests, Seq::empty()), fuel) == Some(
            (
                with_lots(with_lot_points(store, requests, 0), created_lots(requests)),
                Ok::<Seq<LotView>, DefaultAppErrorView>(created_lots(requests)),
            ),
        ),
{
    assert(created_lots(requests).take(0) =~= Seq::<LotView>::empty());
    lemma_create_lots_from(store, requests, 0, fuel);
}

/// The lots of a subdivision are lots of the table, and they belong to the
/// subdivision.
pub proof fn lemma_lots_of_members(lots: Seq<LotView>, subdivision_id: Seq<char>)
    ensures
        forall|k: int|
            0 <= k < lots_of(lots, subdivision_id).len() ==> (#[trigger] lots_of(
                lots,
                subdivision_id,
            )[k]).subdivision_id == subdivision_id && lots.contains(
                lots_of(lots, subdivision_id)[k],
            ),
    decreases lots.len(),
{
    if lots.len() > 0 {
        let rest = lots.drop_last();
        lemma_lots_of_members(rest, subdivision_id);
        assert forall|k: int| 0 <= k < lots_of(lots, subdivision_id).len() implies (
        #[trigger] lots_of(lots, subdivision_id)[k]).subdivision_id == subdivision_id
            && lots.contains(lots_of(lots, subdivision_id)[k]) by {
            let lot = lots_of(lots, subdivision_id)[k];
            if k < lots_of(rest, subdivision_id).len() {
                assert(lot == lots_of(rest, subdivision_id)[k]);
                assert(rest.contains(lot));
                let i = choose|i: int| 0 <= i < rest.len() && rest[i] == lot;
                assert(lots[i] == lot);
            } else {
                assert(lot == lots.last());
                assert(lots[lots.len() - 1] == lot);
            }
        }
    }
}

/// A lot of the table is counted under its own name and subdivision.
pub proof fn lemma_count_lots_member(lots: Seq<LotView>, lot: LotView)
    requires
        lots.contains(lot),
    ensures
        count_lots(lots, lot.name, lot.subdivision_id) >= 1,
    decreases lots.len(),
{
    if lots.last() != lot {
        let rest = lots.drop_last();
        let i = choose|i: int| 0 <= i < lots.len() && lots[i] == lot;
        assert(rest[i] == lot);
        lemma_count_lots_member(rest, lot);
    }
}

/// Where no two lots share a name within one subdivision, the boundary read
/// for the name and subdivision of a lot is that lot's boundary.
pub proof fn lemma_lot_area_of_member(lots: Seq<LotView>, lot: LotView)
    requires
        lot_keys_unique(lots),
        lots.contains(lot),
    ensures
        lot_area(lots, lot.name, lot.subdivision_id) == lot.area,
    decreases lots.len(),
{
    let rest = lots.drop_last();
    let last = lots.last();
    assert(count_lots(lots, lot.name, lot.subdivision_id) <= 1);
    if last.name == lot.name && last.subdivision_id == lot.subdivision_id {
        if last != lot {
            let i = choose|i: int| 0 <= i < lots.len() && lots[i] == lot;
            assert(rest[i] == lot);
            lemma_count_lots_member(rest, lot);
        }
    } else {
        let i = choose|i: int| 0 <= i < lots.len() && lots[i] == lot;
        assert(rest[i] == lot);
        assert forall|name: Seq<char>, subdivision_id: Seq<char>| #[trigger]
            count_lots(rest, name, subdivision_id) <= 1 by {
            assert(count_lots(lots, name, subdivision_id) <= 1);
        }
        lemma_lot_area_of_member(rest, lot);
    }
}

/// With the first `position` lots complete, the reading of a subdivision's
/// lots ends with all of them, each with its boundary.
pub proof fn lemma_fill_from(
    store: StoreModel,
    subdivision_id: Seq<char>,
    position: nat,
    fuel: nat,
)
    requires
        lot_keys_unique(store.lots),
        position <= lots_of(store.lots, subdivision_id).len(),
        fuel >= lots_of(store.lots, subdivision_id).len() - position,
    ensures
        run(
            store,
            LotsTaskView::fill(
                lot_rows(lots_of(store.lots, subdivision_id)),
                lots_of(store.lots, subdivision_id).take(position as int),
            ),
            fuel,
        ) == Some(
            (
                store,
                Ok::<Seq<LotView>, DefaultAppErrorView>(lots_of(store.lots, subdivision_id)),
            ),
        ),
    decreases lots_of(store.lots, subdivision_id).len() - position,
{
    let all = lots_of(store.lots, subdivision_id);
    let rows = lot_rows(all);
    let lots = all.take(position as int);
    if position < all.len() {
        let lot = all[position as int];
        lemma_lots_of_members(store.lots, subdivision_id);
        lemma_lot_area_of_member(store.lots, lot);
        let request = StoreRequestView::GetLotLocations {
            name: lot.name,
            subdivision_id: lot.subdivision_id,
        };
        let task = LotsTaskView::Filling { rows, lots };
        assert(LotsTaskView::fill(rows, lots) == StepView::<LotsTaskView, Seq<LotView>>::Ask(
            request,
            task,
        ));
        assert(store.after(request) == store);
        assert(store.reply(request) == StoreReplyView::LocationIds(lot.area));
        assert(lots.push(lot) =~= all.take(position as int + 1));
        assert(task.resume(store.reply(request)) == LotsTaskView::fill(
            rows,
            all.take(position as int + 1),
        ));
        lemma_fill_from(store, subdivision_id, position + 1, (fuel - 1) as nat);
    } else {
        assert(lots =~= all);
    }
}

/// The reading of a subdivision's lots ends with the lots that belong to the
/// subdivision, in table order, each with its boundary as it was stored, and
/// writes nothing.
pub proof fn law_get_lots_by_subdivision(store: StoreModel, subdivision_id: Seq<char>, fuel: nat)
    requires
        lot_keys_unique(store.lots),
        fuel >= 1 + lots_of(store.lots, subdivision_id).len(),
    ensures
        run(store, LotsTaskView::get_lots_by_subdivision(subdivision_id), fuel) == Some(
            (
                store,
                Ok::<Seq<LotView>, DefaultAppErrorView>(lots_of(store.lots, subdivision_id)),
            ),
        ),
{
    let all = lots_of(store.lots, subdivision_id);
    let request = StoreRequestView::GetLots { subdivision_id };
    assert(store.after(request) == store);
    assert(all.take(0) =~= Seq::<LotView>::empty());
    assert(LotsTaskView::Listing.resume(store.reply(request)) == LotsTaskView::fill(
        lot_rows(all),
        all.take(0),
    ));
    lemma_fill_from(store, subdivision_id, 0, (fuel - 1) as nat);
}

/// Every boundary of `lots` names stored points only.
pub open spec fn lots_resolve(table: Seq<LocationView>, lots: Seq<LotView>) -> bool {
    forall|k: int| 0 <= k < lots.len() ==> resolves(table, (#[trigger] lots[k]).area)
}

/// `lots` with their boundaries as the points stored under their
/// identifiers.
pub open spec fn resolved_lots(table: Seq<LocationView>, lots: Seq<LotView>) -> Seq<LotDtoView> {
    Seq::new(lots.len(), |k: int| lot_dto(lots[k], points_at(table, lots[k].area)))
}

/// The number of boundary points of `lots` from position `from` on.
pub open spec fn ids_in(lots: Seq<LotView>, from: nat) -> nat
    decreases lots.len() - from,
{
    if from >= lots.len() {
        0
    } else {
        lots[from as int].area.len() + ids_in(lots, from + 1)
    }
}

/// The aggregate of `subdivision` as the store holds it: the boundary as the
/// points stored under its identifiers, in ring order, and the lots of the
/// subdivision, each with its boundary as points.
pub open spec fn aggregate_of(store: StoreModel, subdivision: SubdivisionView) -> AggregateView {
    AggregateView {
        dto: SubdivisionDtoView {
            id: subdivision.id,
            name: subdivision.name,
            area: points_at(store.locations, subdivision.area),
            lots: Some(resolved_lots(store.locations, lots_of(store.lots, subdivision.id))),
        },
        dropped: 0,
    }
}

/// With the first `position` lots resolved, the assembly of an aggregate
/// whose points are all stored ends with the whole aggregate.
pub proof fn lemma_next_lot_from(
    store: StoreModel,
    subdivision: SubdivisionView,
    policy: ResolutionPolicy,
    position: nat,
    fuel: nat,
)
    requires
        resolves(store.locations, subdivision.area),
        lots_resolve(store.locations, lots_of(store.lots, subdivision.id)),
        position <= lots_of(store.lots, subdivision.id).len(),
        fuel >= ids_in(lots_of(store.lots, subdivision.id), position) + subdivision.area.len(),
    ensures
        run(
            store,
            AggregateTaskView::next_lot(
                subdivision,
                policy,
                lots_of(store.lots, subdivision.id),
                resolved_lots(store.locations, lots_of(store.lots, subdivision.id)).take(
                    position as int,
                ),
                0,
            ),
            fuel,
        ) == Some(
            (
                store,
                Ok::<AggregateView, DefaultAppErrorView>(aggregate_of(store, subdivision)),
            ),
        ),
    decreases lots_of(store.lots, subdivision.id).len() - position,
{
    let lots = lots_of(store.lots, subdivision.id);
    let all = resolved_lots(store.locations, lots);
    let done = all.take(position as int);
    if position < lots.len() {
        let lot = lots[position as int];
        assert(resolves(store.locations, lot.area));
        let lift = |ring: StepView<RingReadView, ResolvedRingView>|
            match ring {
                StepView::Ask(request, ring) => StepView::<
                    AggregateTaskView,
                    AggregateView,
                >::Ask(
                    request,
                    AggregateTaskView::LotRing {
                        subdivision,
                        policy,
                        lots,
                        done,
                        dropped: 0,
                        ring,
                    },
                ),
                StepView::Done(Err(error)) => StepView::Done(Err(error)),
                StepView::Done(Ok(resolved)) => AggregateTaskView::next_lot(
                    subdivision,
                    policy,
                    lots,
                    done.push(lot_dto(lot, resolved.points)),
                    add_dropped(0, resolved.dropped),
                ),
            };
        let wrap = |ring: RingReadView|
            AggregateTaskView::LotRing { subdivision, policy, lots, done, dropped: 0, ring };
        assert(carries(lift, wrap)) by {
            assert forall|request: StoreRequestView, task: RingReadView, reply: StoreReplyView|
                #![trigger lift(StepView::Ask(request, task)), task.resume(reply)]
                lift(StepView::Ask(request, task)) == StepView::<
                    AggregateTaskView,
                    AggregateView,
                >::Ask(request, wrap(task)) && wrap(task).resume(reply) == lift(
                    task.resume(reply),
                ) by {}
        }
        let inner = RingReadView::ring_to_points(lot.area, policy);
        assert(AggregateTaskView::next_lot(subdivision, policy, lots, done, 0) == lift(inner));
        let enough = lot.area.len();
        law_ring_to_points(store, lot.area, policy, enough);
        assert(done.push(lot_dto(lot, points_at(store.locations, lot.area))) =~= all.take(
            position as int + 1,
        ));
        let rest = (fuel - enough) as nat;
        lemma_next_lot_from(store, subdivision, policy, position + 1, rest);
        lemma_run_carried(store, inner, lift, wrap, enough, rest);
    } else {
        assert(done =~= all);
        let lift = |ring: StepView<RingReadView, ResolvedRingView>|
            AggregateTaskView::after_boundary(subdivision, done, 0, ring);
        let wrap = |ring: RingReadView|
            AggregateTaskView::Boundary { subdivision, lots: done, dropped: 0, ring };
        assert(carries(lift, wrap)) by {
            assert forall|request: StoreRequestView, task: RingReadView, reply: StoreReplyView|
                #![trigger lift(StepView::Ask(request, task)), task.resume(reply)]
                lift(StepView::Ask(request, task)) == StepView::<
                    AggregateTaskView,
                    AggregateView,
                >::Ask(request, wrap(task)) && wrap(task).resume(reply) == lift(
                    task.resume(reply),
                ) by {}
        }
        let inner = RingReadView::ring_to_points(subdivision.area, policy);
        assert(AggregateTaskView::next_lot(subdivision, policy, lots, done, 0) == lift(inner));
        let enough = subdivision.area.len();
        law_ring_to_points(store, subdivision.area, policy, enough);
        lemma_run_carried(store, inner, lift, wrap, enough, 0);
        lemma_run_with_more_fuel(store, lift(inner), enough, (fuel - enough) as nat);
    }
}

/// The assembly of the aggregate of a subdivision whose points are all
/// stored, its own and those of its lots, ends with the boundary as the
/// points stored under its identifiers, in ring order, and with the lots of
/// the subdivision in table order, each with its boundary as points in ring
/// order. Nothing is dropped under either policy, and nothing is written.
pub proof fn law_to_dto(
    store: StoreModel,
    subdivision: SubdivisionView,
    policy: ResolutionPolicy,
    fuel: nat,
)
    requires
        lot_keys_unique(store.lots),
        resolves(store.locations, subdivision.area),
        lots_resolve(store.locations, lots_of(store.lots, subdivision.id)),
        fuel >= 1 + lots_of(store.lots, subdivision.id).len() + ids_in(
            lots_of(store.lots, subdivision.id),
            0,
        ) + subdivision.area.len(),
    ensures
        run(store, AggregateTaskView::to_dto(subdivision, policy), fuel) == Some(
            (
                store,
                Ok::<AggregateView, DefaultAppErrorView>(aggregate_of(store, subdivision)),
            ),
        ),
{
    let lots = lots_of(store.lots, subdivision.id);
    let lift = |reading: StepView<LotsTaskView, Seq<LotView>>|
        AggregateTaskView::after_lots(subdivision, policy, reading);
    let wrap = |reading: LotsTaskView| AggregateTaskView::Lots { subdivision, policy, reading };
    assert(carries(lift, wrap)) by {
        assert forall|request: StoreRequestView, task: LotsTaskView, reply: StoreReplyView|
            #![trigger lift(StepView::Ask(request, task)), task.resume(reply)]
            lift(StepView::Ask(request, task)) == StepView::<
                AggregateTaskView,
                AggregateView,
            >::Ask(request, wrap(task)) && wrap(task).resume(reply) == lift(task.resume(reply)) by {}
    }
    let inner = LotsTaskView::get_lots_by_subdivision(subdivision.id);
    let enough = 1 + lots.len();
    law_get_lots_by_subdivision(store, subdivision.id, enough);
    let rest = (fuel - enough) as nat;
    assert(resolved_lots(store.locations, lots).take(0) =~= Seq::<LotDtoView>::empty());
    lemma_next_lot_from(store, subdivision, policy, 0, rest);
    lemma_run_carried(store, inner, lift, wrap, enough, rest);
}

/// A subdivision that was created and is then assembled into its aggregate
/// comes back with the boundary it was created with: the same coordinates in
/// the same order, none dropped, under either policy.
///
/// This holds where one coordinate always comes with the same text, for the
/// points of the boundary as for the rows that are stored already, and where
/// that text tells points apart.
pub proof fn law_create_then_to_dto(
    store: StoreModel,
    writing: spec_fn(u64) -> Seq<char>,
    request: SubdivisionRequestView,
    policy: ResolutionPolicy,
    fuel: nat,
)
    requires
        store.valid(),
        table_written(store.locations, writing),
        tells_apart(writing),
        points_written_by(request.area, writing),
        lots_resolve(store.locations, lots_of(store.lots, request.id)),
        fuel >= 2 * request.area.len() + 1 + lots_of(store.lots, request.id).len() + ids_in(
            lots_of(store.lots, request.id),
            0,
        ),
    ensures
        ({
            let created = run(store, CreateTaskView::create(request), fuel);
            &&& created matches Some((stored, Ok(id)))
            &&& id == request.id
            &&& run(
                stored,
                AggregateTaskView::to_dto(created_subdivision(request), policy),
                fuel,
            ) matches Some((read, Ok(aggregate)))
            &&& read == stored
            &&& aggregate.dto.id == request.id
            &&& aggregate.dto.name == request.name
            &&& aggregate.dto.area == coords_of(request.area)
            &&& aggregate.dropped == 0
        }),
{
    law_create(store, request, fuel);
    law_ring_from_points(store, request.area, fuel);
    lemma_table_with_written_points(store.locations, writing, request.area, 0);
    let subdivision = created_subdivision(request);
    let stored = with_points(store, request.area).after(
        StoreRequestView::CreateSubdivision { subdivision },
    );
    assert(stored.lots == store.lots);
    assert(stored.locations == with_points(store, request.area).locations);
    lemma_points_at_derived_ids(stored.locations, writing, request.area);
    let lots = lots_of(stored.lots, subdivision.id);
    assert forall|k: int| 0 <= k < lots.len() implies resolves(
        stored.locations,
        (#[trigger] lots[k]).area,
    ) by {
        assert(resolves(store.locations, lots[k].area));
        assert forall|j: int| 0 <= j < lots[k].area.len() implies #[trigger] count_with_id(
            stored.locations,
            lots[k].area[j],
        ) == 1 by {
            assert(count_with_id(store.locations, lots[k].area[j]) == 1);
        }
    }
    law_to_dto(stored, subdivision, policy, fuel);
}

} // verus!
