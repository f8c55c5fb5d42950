use real_estate_server::error::DefaultAppError;
use real_estate_server::geometry::{
    assemble_area, copy_ids, copy_points, ring_from_points, ring_to_points,
    ResolutionPolicy, ResolvedRing, RingRead, RingWrite,
};
use real_estate_server::location::{derive_location_id, Location, Point};
use real_estate_server::location_repo::LocationRepo;
use real_estate_server::location_service::{
    failure_of, CountTask, LocationService, LocationTask,
};
use real_estate_server::storage::Storage;
use real_estate_server::store::{Step, StoreReply, StoreRequest};

struct Table {
    rows: Vec<Location>,
    requests: usize,
}

impl Table {
    fn new() -> Table {
        Table { rows: Vec::new(), requests: 0 }
    }

    fn answer(&mut self, request: StoreRequest) -> StoreReply {
        self.requests += 1;
        match request {
            StoreRequest::GetLocation { id } => StoreReply::Locations(
                self.rows.iter().filter(|row| row.id == id).cloned().collect(),
            ),
            StoreRequest::SaveLocation { location } => {
                if self.rows.iter().any(|row| row.id == location.id) {
                    StoreReply::Affected(0)
                } else {
                    self.rows.push(location);
                    StoreReply::Affected(1)
                }
            }
            _ => StoreReply::Failed(DefaultAppError { message: None, status_code: 501 }),
        }
    }

    fn count(&self, id: &str) -> usize {
        self.rows.iter().filter(|row| row.id == id).count()
    }
}

fn run<T, X>(
    table: &mut Table,
    first: Step<T, X>,
    resume: fn(T, StoreReply) -> Step<T, X>,
) -> Result<X, DefaultAppError> {
    let mut step = first;
    loop {
        match step {
            Step::Done(result) => return result,
            Step::Ask(request, task) => {
                let reply = table.answer(request);
                step = resume(task, reply);
            }
        }
    }
}

fn service() -> LocationService {
    LocationService::new(Storage::new(
        String::from("localhost"),
        String::from("postgres"),
        String::from("postgres"),
        String::from("postgres"),
    ))
}

fn pt(lat: u64, long: u64) -> Point {
    Point { lat, long, lat_text: lat.to_string(), long_text: long.to_string() }
}

fn point(lat: f64, long: f64) -> Point {
    Point {
        lat: lat.to_bits(),
        long: long.to_bits(),
        lat_text: lat.to_string(),
        long_text: long.to_string(),
    }
}

fn broken() -> DefaultAppError {
    DefaultAppError { message: Some(String::from("connection lost")), status_code: 503 }
}

#[test]
fn get_location_asks_for_the_identifier() {
    let step = service().get_location(String::from("1-2"));
    assert_eq!(
        step,
        Step::Ask(StoreRequest::GetLocation { id: String::from("1-2") }, LocationTask::Reading)
    );
}

#[test]
fn get_location_by_coords_asks_for_the_derived_identifier() {
    let step = service().get_location_by_coords(pt(3, 4));
    assert_eq!(
        step,
        Step::Ask(StoreRequest::GetLocation { id: String::from("3-4") }, LocationTask::Reading)
    );
}

#[test]
fn get_location_ends_with_the_single_row() {
    let row = Location::at(&pt(1, 2));
    let step = LocationTask::Reading.resume(StoreReply::Locations(vec![row.clone()]));
    assert_eq!(step, Step::Done(Ok(row)));
}

#[test]
fn get_location_reports_an_absent_row() {
    let step = LocationTask::Reading.resume(StoreReply::Locations(Vec::new()));
    assert_eq!(step, Step::Done(Err(DefaultAppError::unexpected_results(0))));
}

#[test]
fn get_location_reports_more_than_one_row() {
    let row = Location::at(&pt(1, 2));
    let step = LocationTask::Reading.resume(StoreReply::Locations(vec![row.clone(), row]));
    assert_eq!(step, Step::Done(Err(DefaultAppError::unexpected_results(2))));
}

#[test]
fn location_from_rows_wants_exactly_one_row() {
    let row = Location::at(&pt(1, 2));
    assert_eq!(LocationRepo::location_from_rows(vec![row.clone()]), Ok(row.clone()));
    assert_eq!(
        LocationRepo::location_from_rows(Vec::new()),
        Err(DefaultAppError::unexpected_results(0))
    );
    assert_eq!(
        LocationRepo::location_from_rows(vec![row.clone(), row.clone(), row]),
        Err(DefaultAppError::unexpected_results(3))
    );
}

#[test]
fn store_failure_is_passed_on_unchanged() {
    for task in [
        LocationTask::Reading,
        LocationTask::Creating { location: Location::at(&pt(1, 2)) },
        LocationTask::Looking { point: pt(1, 2) },
        LocationTask::Inserting { location: Location::at(&pt(1, 2)) },
    ] {
        assert_eq!(task.resume(StoreReply::Failed(broken())), Step::Done(Err(broken())));
    }
}

#[test]
fn reply_of_the_wrong_kind_ends_the_task() {
    assert_eq!(
        LocationTask::Reading.resume(StoreReply::Affected(1)),
        Step::Done(Err(DefaultAppError::unexpected_reply()))
    );
    assert_eq!(
        LocationTask::Looking { point: pt(1, 2) }.resume(StoreReply::Completed),
        Step::Done(Err(DefaultAppError::unexpected_reply()))
    );
    assert_eq!(
        LocationTask::Inserting { location: Location::at(&pt(1, 2)) }
            .resume(StoreReply::Locations(Vec::new())),
        Step::Done(Err(DefaultAppError::unexpected_reply()))
    );
    assert_eq!(failure_of(StoreReply::Completed), DefaultAppError::unexpected_reply());
    assert_eq!(failure_of(StoreReply::Failed(broken())), broken());
}

#[test]
fn create_location_stores_and_returns_the_location() {
    let location = Location::at(&pt(1, 2));
    let step = service().create_location(location.clone());
    assert_eq!(
        step,
        Step::Ask(
            StoreRequest::SaveLocation { location: location.clone() },
            LocationTask::Creating { location: location.clone() }
        )
    );
    let mut table = Table::new();
    assert_eq!(run(&mut table, step, LocationTask::resume), Ok(location));
    assert_eq!(table.count("1-2"), 1);
}

#[test]
fn create_location_wants_exactly_one_created_row() {
    let location = Location::at(&pt(1, 2));
    let mut table = Table::new();
    table.rows.push(location.clone());
    let result = run(&mut table, service().create_location(location.clone()), LocationTask::resume);
    assert_eq!(result, Err(DefaultAppError::unexpected_rows_created(0)));
    assert_eq!(table.count("1-2"), 1);
    assert_eq!(
        LocationTask::Creating { location }.resume(StoreReply::Affected(2)),
        Step::Done(Err(DefaultAppError::unexpected_rows_created(2)))
    );
}

#[test]
fn get_or_create_looks_up_before_it_writes() {
    let step = service().get_or_create_location(pt(1, 2));
    assert_eq!(
        step,
        Step::Ask(
            StoreRequest::GetLocation { id: String::from("1-2") },
            LocationTask::Looking { point: pt(1, 2) }
        )
    );
    let task = LocationTask::Looking { point: pt(1, 2) };
    assert_eq!(
        task.resume(StoreReply::Locations(Vec::new())),
        Step::Ask(
            StoreRequest::SaveLocation { location: Location::at(&pt(1, 2)) },
            LocationTask::Inserting { location: Location::at(&pt(1, 2)) }
        )
    );
}

#[test]
fn get_or_create_returns_the_row_that_is_there() {
    let mut table = Table::new();
    table.rows.push(Location::at(&pt(1, 2)));
    let result = run(&mut table, service().get_or_create_location(pt(1, 2)), LocationTask::resume);
    assert_eq!(result, Ok(Location::at(&pt(1, 2))));
    assert_eq!(table.requests, 1);
    assert_eq!(table.rows.len(), 1);
}

#[test]
fn get_or_create_twice_gives_one_row_and_one_identifier() {
    let coords = point(48.8566, 2.3522);
    let mut table = Table::new();
    let first = run(&mut table, service().get_or_create_location(coords.clone()), LocationTask::resume)
        .unwrap();
    let second = run(&mut table, service().get_or_create_location(coords.clone()), LocationTask::resume)
        .unwrap();
    assert_eq!(first.id, second.id);
    assert_eq!(first.id, derive_location_id(&coords));
    assert_eq!(first, second);
    assert_eq!(table.count(&first.id), 1);
    assert_eq!(table.rows.len(), 1);
    assert_eq!(table.requests, 3);
}

#[test]
fn get_or_create_keeps_distinct_points_apart() {
    let mut table = Table::new();
    let a = run(&mut table, service().get_or_create_location(pt(1, 23)), LocationTask::resume)
        .unwrap();
    let b = run(&mut table, service().get_or_create_location(pt(12, 3)), LocationTask::resume)
        .unwrap();
    assert_ne!(a.id, b.id);
    assert_eq!(table.rows.len(), 2);
}

#[test]
fn two_callers_racing_for_a_new_point_leave_one_row() {
    let coords = pt(5, 6);
    let mut table = Table::new();
    let (first_request, first_task) = match service().get_or_create_location(coords.clone()) {
        Step::Ask(request, task) => (request, task),
        Step::Done(_) => panic!("the lookup must be asked"),
    };
    let (second_request, second_task) = match service().get_or_create_location(coords.clone()) {
        Step::Ask(request, task) => (request, task),
        Step::Done(_) => panic!("the lookup must be asked"),
    };
    let first_seen = table.answer(first_request);
    let second_seen = table.answer(second_request);
    assert_eq!(first_seen, StoreReply::Locations(Vec::new()));
    assert_eq!(second_seen, StoreReply::Locations(Vec::new()));
    let (first_write, first_task) = match first_task.resume(first_seen) {
        Step::Ask(request, task) => (request, task),
        Step::Done(_) => panic!("the write must be asked"),
    };
    let (second_write, second_task) = match second_task.resume(second_seen) {
        Step::Ask(request, task) => (request, task),
        Step::Done(_) => panic!("the write must be asked"),
    };
    let second_done = table.answer(second_write);
    let first_done = table.answer(first_write);
    assert_eq!(second_done, StoreReply::Affected(1));
    assert_eq!(first_done, StoreReply::Affected(0));
    let first = first_task.resume(first_done);
    let second = second_task.resume(second_done);
    assert_eq!(first, Step::Done(Ok(Location::at(&coords))));
    assert_eq!(second, Step::Done(Ok(Location::at(&coords))));
    assert_eq!(table.count("5-6"), 1);
    assert_eq!(table.rows.len(), 1);
}

#[test]
fn get_or_create_refuses_an_identifier_stored_twice() {
    let row = Location::at(&pt(1, 2));
    let step =
        LocationTask::Looking { point: pt(1, 2) }.resume(StoreReply::Locations(vec![row.clone(), row]));
    assert_eq!(step, Step::Done(Err(DefaultAppError::unexpected_results(2))));
    assert_eq!(
        LocationTask::Inserting { location: Location::at(&pt(1, 2)) }.resume(StoreReply::Affected(2)),
        Step::Done(Err(DefaultAppError::unexpected_rows_created(2)))
    );
}

#[test]
fn assemble_area_pairs_by_position() {
    let area = assemble_area(&vec![1, 2, 3], &vec![10, 20, 30]);
    assert_eq!(area, Ok(vec![(1, 10), (2, 20), (3, 30)]));
    assert_eq!(assemble_area(&Vec::new(), &Vec::new()), Ok(Vec::new()));
}

#[test]
fn assemble_area_refuses_arrays_of_different_lengths() {
    assert_eq!(
        assemble_area(&vec![1, 2, 3], &vec![10, 20]),
        Err(DefaultAppError::mismatched_arrays(3, 2))
    );
    assert_eq!(
        assemble_area(&Vec::new(), &vec![10]),
        Err(DefaultAppError::mismatched_arrays(0, 1))
    );
}

#[test]
fn ring_from_points_of_nothing_asks_nothing() {
    assert_eq!(ring_from_points(Vec::new()), Step::Done(Ok(Vec::new())));
}

#[test]
fn ring_from_points_keeps_the_order_of_the_points() {
    let points = vec![pt(3, 3), pt(1, 1), pt(2, 2)];
    let mut table = Table::new();
    table.rows.push(Location::at(&pt(1, 1)));
    let ids = run(&mut table, ring_from_points(points), RingWrite::resume).unwrap();
    assert_eq!(ids, vec![String::from("3-3"), String::from("1-1"), String::from("2-2")]);
    assert_eq!(table.rows.len(), 3);
    assert_eq!(table.requests, 5);
}

#[test]
fn ring_from_points_stores_a_repeated_point_once() {
    let points = vec![pt(1, 1), pt(2, 2), pt(1, 1)];
    let mut table = Table::new();
    let ids = run(&mut table, ring_from_points(points), RingWrite::resume).unwrap();
    assert_eq!(ids, vec![String::from("1-1"), String::from("2-2"), String::from("1-1")]);
    assert_eq!(table.rows.len(), 2);
    assert_eq!(table.count("1-1"), 1);
}

#[test]
fn ring_from_points_ends_with_the_first_failure() {
    let step = ring_from_points(vec![pt(1, 1), pt(2, 2)]);
    let task = match step {
        Step::Ask(_, task) => task,
        Step::Done(_) => panic!("the lookup must be asked"),
    };
    assert_eq!(task.resume(StoreReply::Failed(broken())), Step::Done(Err(broken())));
}

#[test]
fn ring_round_trip_gives_the_points_back_in_order() {
    let points = vec![point(1.5, -2.25), point(0.0, 0.0), point(-90.0, 180.0), point(45.0, 45.0)];
    for policy in [ResolutionPolicy::Strict, ResolutionPolicy::Lenient] {
        let mut table = Table::new();
        let ids = run(&mut table, ring_from_points(copy_points(&points)), RingWrite::resume)
            .unwrap();
        let ring = run(&mut table, ring_to_points(ids, policy), RingRead::resume).unwrap();
        let coords: Vec<(u64, u64)> = points.iter().map(|p| p.coords()).collect();
        assert_eq!(ring, ResolvedRing { points: coords, dropped: 0 });
    }
}

#[test]
fn ring_to_points_of_nothing_asks_nothing() {
    assert_eq!(
        ring_to_points(Vec::new(), ResolutionPolicy::Strict),
        Step::Done(Ok(ResolvedRing { points: Vec::new(), dropped: 0 }))
    );
}

#[test]
fn strict_ring_fails_on_an_identifier_that_does_not_resolve() {
    let mut table = Table::new();
    table.rows.push(Location::at(&pt(1, 1)));
    table.rows.push(Location::at(&pt(3, 3)));
    let ids = vec![String::from("1-1"), String::from("2-2"), String::from("3-3")];
    let result = run(&mut table, ring_to_points(ids, ResolutionPolicy::Strict), RingRead::resume);
    assert_eq!(result, Err(DefaultAppError::unexpected_results(0)));
    assert_eq!(table.requests, 2);
}

#[test]
fn lenient_ring_leaves_the_point_out_and_counts_it() {
    let mut table = Table::new();
    table.rows.push(Location::at(&pt(1, 1)));
    table.rows.push(Location::at(&pt(3, 3)));
    let ids = vec![
        String::from("1-1"),
        String::from("2-2"),
        String::from("3-3"),
        String::from("4-4"),
    ];
    let result = run(&mut table, ring_to_points(ids, ResolutionPolicy::Lenient), RingRead::resume);
    assert_eq!(result, Ok(ResolvedRing { points: vec![(1, 1), (3, 3)], dropped: 2 }));
    assert_eq!(table.requests, 4);
}

#[test]
fn lenient_ring_ends_with_a_store_failure() {
    let ids = vec![String::from("1-1")];
    let task = match ring_to_points(ids, ResolutionPolicy::Lenient) {
        Step::Ask(request, task) => {
            assert_eq!(request, StoreRequest::GetLocation { id: String::from("1-1") });
            task
        }
        Step::Done(_) => panic!("the lookup must be asked"),
    };
    assert_eq!(task.resume(StoreReply::Failed(broken())), Step::Done(Err(broken())));
}

#[test]
fn ring_read_past_its_end_refuses_every_reply() {
    let ring = RingRead {
        ids: vec![String::from("1-1")],
        points: vec![(1, 1)],
        next: 1,
        policy: ResolutionPolicy::Strict,
    };
    assert_eq!(
        ring.resume(StoreReply::Failed(broken())),
        Step::Done(Err(broken()))
    );
    let ring = RingRead {
        ids: vec![String::from("1-1")],
        points: vec![(1, 1)],
        next: 1,
        policy: ResolutionPolicy::Lenient,
    };
    assert_eq!(
        ring.resume(StoreReply::Locations(Vec::new())),
        Step::Done(Err(DefaultAppError::unexpected_reply()))
    );
}

#[test]
fn copies_are_equal_to_what_they_copy() {
    let points = vec![pt(1, 2), point(3.5, -4.0)];
    assert_eq!(copy_points(&points), points);
    let ids = vec![String::from("a"), String::from("b")];
    assert_eq!(copy_ids(&ids), ids);
}

#[test]
fn create_locations_sends_the_batch_and_returns_the_count() {
    let batch = vec![Location::at(&pt(1, 1)), Location::at(&pt(2, 2))];
    assert_eq!(
        service().create_locations(batch.clone()),
        Step::Ask(StoreRequest::SaveLocations { locations: batch }, CountTask {})
    );
    assert_eq!(CountTask {}.resume(StoreReply::Affected(2)), Step::Done(Ok(2)));
    assert_eq!(CountTask {}.resume(StoreReply::Failed(broken())), Step::Done(Err(broken())));
    assert_eq!(
        CountTask {}.resume(StoreReply::Completed),
        Step::Done(Err(DefaultAppError::unexpected_reply()))
    );
}

#[test]
fn get_or_create_on_the_empty_store_stores_the_point_under_its_text() {
    let mut table = Table::new();
    let result = run(
        &mut table,
        service().get_or_create_location(point(1.0, 2.0)),
        LocationTask::resume,
    );
    let expected =
        Location { id: String::from("1-2"), lat: 1.0f64.to_bits(), long: 2.0f64.to_bits() };
    assert_eq!(result, Ok(expected.clone()));
    assert_eq!(table.rows, vec![expected]);
}
