//! A model of the backing store, and what it means to run an operation
//! against it.
//!
//! The store is outside this crate. What the crate proves of whole
//! operations, it proves of this model: three tables, a lookup that returns
//! what is stored, and writes that are applied in full. Searches and listings
//! are computed by the store itself and are not part of the model.

use crate::error::DefaultAppErrorView;
use crate::location::LocationView;
use crate::location_table::{ids_unique, reply_to, table_after};
use crate::store::{LotRowView, Resumable, StepView, StoreReplyView, StoreRequestView};
use crate::subdivision::{LotView, SubdivisionView};
use vstd::prelude::*;

verus! {

/// The tables of the store.
pub struct StoreModel {
    pub locations: Seq<LocationView>,
    pub subdivisions: Seq<SubdivisionView>,
    pub lots: Seq<LotView>,
}

/// The lots of `lots` that belong to `subdivision_id`, in table order.
pub open spec fn lots_of(lots: Seq<LotView>, subdivision_id: Seq<char>) -> Seq<LotView>
    decreases lots.len(),
{
    if lots.len() == 0 {
        Seq::empty()
    } else if lots.last().subdivision_id == subdivision_id {
        lots_of(lots.drop_last(), subdivision_id).push(lots.last())
    } else {
        lots_of(lots.drop_last(), subdivision_id)
    }
}

/// The rows that list `lots` without their boundaries.
pub open spec fn lot_rows(lots: Seq<LotView>) -> Seq<LotRowView> {
    Seq::new(
        lots.len(),
        |i: int| LotRowView { name: lots[i].name, subdivision_id: lots[i].subdivision_id },
    )
}

/// How many lots of `lots` are known as `name` within `subdivision_id`.
pub open spec fn count_lots(lots: Seq<LotView>, name: Seq<char>, subdivision_id: Seq<char>) -> nat
    decreases lots.len(),
{
    if lots.len() == 0 {
        0
    } else {
        count_lots(lots.drop_last(), name, subdivision_id) + if lots.last().name == name
            && lots.last().subdivision_id == subdivision_id {
            1nat
        } else {
            0nat
        }
    }
}

/// The boundary of the lot known as `name` within `subdivision_id`: the
/// identifiers of its points in ring order; empty where there is no such lot.
pub open spec fn lot_area(lots: Seq<LotView>, name: Seq<char>, subdivision_id: Seq<char>) -> Seq<
    Seq<char>,
>
    decreases lots.len(),
{
    if lots.len() == 0 {
        Seq::empty()
    } else if lots.last().name == name && lots.last().subdivision_id == subdivision_id {
        lots.last().area
    } else {
        lot_area(lots.drop_last(), name, subdivision_id)
    }
}

/// No two lots share a name within one subdivision.
pub open spec fn lot_keys_unique(lots: Seq<LotView>) -> bool {
    forall|name: Seq<char>, subdivision_id: Seq<char>| #[trigger]
        count_lots(lots, name, subdivision_id) <= 1
}

impl StoreModel {
    /// The store keeps its keys: no location identifier is stored twice, and
    /// no two lots share a name within one subdivision.
    pub open spec fn valid(self) -> bool {
        ids_unique(self.locations) && lot_keys_unique(self.lots)
    }

    /// The store after it has served `request`.
    pub open spec fn after(self, request: StoreRequestView) -> StoreModel {
        match request {
            StoreRequestView::CreateSubdivision { subdivision } => StoreModel {
                locations: self.locations,
                subdivisions: self.subdivisions.push(subdivision),
                lots: self.lots,
            },
            StoreRequestView::CreateLot { lot } => StoreModel {
                locations: self.locations,
                subdivisions: self.subdivisions,
                lots: self.lots.push(lot),
            },
            StoreRequestView::CreateLots { lots } => StoreModel {
                locations: self.locations,
                subdivisions: self.subdivisions,
                lots: self.lots + lots,
            },
            _ => StoreModel {
                locations: table_after(self.locations, request),
                subdivisions: self.subdivisions,
                lots: self.lots,
            },
        }
    }

    /// The store's reply to `request`. The model answers lookups and writes
    /// of single locations, the writes of subdivisions and lots, and the
    /// reading of lots and of their boundaries; any other request it
    /// refuses.
    pub open spec fn reply(self, request: StoreRequestView) -> StoreReplyView {
        match request {
            StoreRequestView::CreateSubdivision { .. } => StoreReplyView::Completed,
            StoreRequestView::CreateLot { .. } => StoreReplyView::Completed,
            StoreRequestView::CreateLots { .. } => StoreReplyView::Completed,
            StoreRequestView::GetLots { subdivision_id } => StoreReplyView::Lots(
                lot_rows(lots_of(self.lots, subdivision_id)),
            ),
            StoreRequestView::GetLotLocations { name, subdivision_id } => StoreReplyView::LocationIds(
                lot_area(self.lots, name, subdivision_id),
            ),
            _ => reply_to(self.locations, request),
        }
    }
}

/// An operation run to its end against the store, with nobody else writing
/// meanwhile: each request is served by the store and the reply handed back
/// to the task. The result is the store as the operation leaves it and what
/// the operation ended with; `None` where `fuel` round trips do not suffice.
pub open spec fn run<T: Resumable>(store: StoreModel, step: StepView<T, T::Outcome>, fuel: nat)
    -> Option<(StoreModel, Result<T::Outcome, DefaultAppErrorView>)>
    decreases fuel,
{
    match step {
        StepView::Done(result) => Some((store, result)),
        StepView::Ask(request, task) => if fuel == 0 {
            None
        } else {
            run(store.after(request), task.resume(store.reply(request)), (fuel - 1) as nat)
        },
    }
}

/// An operation that has ended within some number of round trips ends in the
/// same way when it is allowed more.
pub proof fn lemma_run_with_more_fuel<T: Resumable>(
    store: StoreModel,
    step: StepView<T, T::Outcome>,
    fuel: nat,
    more: nat,
)
    requires
        run(store, step, fuel) is Some,
    ensures
        run(store, step, fuel + more) == run(store, step, fuel),
    decreases fuel,
{
    match step {
        StepView::Done(_) => {},
        StepView::Ask(request, task) => {
            lemma_run_with_more_fuel(
                store.after(request),
                task.resume(store.reply(request)),
                (fuel - 1) as nat,
                more,
            );
        },
    }
}

/// Whether an operation carries another inside it in the way that `lift` and
/// `wrap` describe: while the inner operation asks, the outer one asks the
/// same and waits in the wrapped state, and it hands every reply to the inner
/// operation.
pub open spec fn carries<I: Resumable, O: Resumable>(
    lift: spec_fn(StepView<I, I::Outcome>) -> StepView<O, O::Outcome>,
    wrap: spec_fn(I) -> O,
) -> bool {
    forall|request: StoreRequestView, task: I, reply: StoreReplyView|
        #![trigger lift(StepView::Ask(request, task)), task.resume(reply)]
        lift(StepView::Ask(request, task)) == StepView::<O, O::Outcome>::Ask(request, wrap(task))
            && wrap(task).resume(reply) == lift(task.resume(reply))
}

/// An operation that carries another runs as the inner one does until the
/// inner one has ended, and goes on from what the inner one ended with.
pub proof fn lemma_run_carried<I: Resumable, O: Resumable>(
    store: StoreModel,
    inner: StepView<I, I::Outcome>,
    lift: spec_fn(StepView<I, I::Outcome>) -> StepView<O, O::Outcome>,
    wrap: spec_fn(I) -> O,
    fuel: nat,
    more: nat,
)
    requires
        carries(lift, wrap),
        run(store, inner, fuel) is Some,
        run(
            run(store, inner, fuel).unwrap().0,
            lift(StepView::Done(run(store, inner, fuel).unwrap().1)),
            more,
        ) is Some,
    ensures
        run(store, lift(inner), fuel + more) == run(
            run(store, inner, fuel).unwrap().0,
            lift(StepView::Done(run(store, inner, fuel).unwrap().1)),
            more,
        ),
    decreases fuel,
{
    match inner {
        StepView::Done(result) => {
            lemma_run_with_more_fuel(store, lift(inner), more, fuel);
        },
        StepView::Ask(request, task) => {
            let reply = store.reply(request);
            assert(lift(StepView::Ask(request, task)) == StepView::<O, O::Outcome>::Ask(
                request,
                wrap(task),
            ) && wrap(task).resume(reply) == lift(task.resume(reply)));
            lemma_run_carried(
                store.after(request),
                task.resume(reply),
                lift,
                wrap,
                (fuel - 1) as nat,
                more,
            );
        },
    }
}

} // verus!
