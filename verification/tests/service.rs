use real_estate_server::api_contracts::{
    LotDto, LotRequest, SearchCriteria, SearchSubdivisionParams, SubdivisionDto,
    SubdivisionPreview, SubdivisionRequest,
};
use real_estate_server::error::DefaultAppError;
use real_estate_server::geometry::ResolutionPolicy;
use real_estate_server::location::{Location, Point};
use real_estate_server::location_service::LocationService;
use real_estate_server::storage::Storage;
use real_estate_server::store::{
    AreaRow, LotAreaRow, LotRow, Step, StoreReply, StoreRequest,
};
use real_estate_server::subdivision::{derive_lot_display_id, Lot, RepresentativePoint, Subdivision};
use real_estate_server::subdivision_repo::LotsTask;
use real_estate_server::aggregate::{Aggregate, AggregateTask};
use real_estate_server::creation::{copy_lots, created_lot_ids, CreateLotsTask, CreateTask};
use real_estate_server::search::{
    lots_from_rows, subdivisions_from_rows, ListingTask, LotAreasTask, SearchTask,
    DEFAULT_SEARCH_RADIUS,
};
use real_estate_server::subdivision_service::SubdivisionService;

struct Store {
    locations: Vec<Location>,
    subdivisions: Vec<Subdivision>,
    lots: Vec<Lot>,
    writes: usize,
}

impl Store {
    fn new() -> Store {
        Store { locations: Vec::new(), subdivisions: Vec::new(), lots: Vec::new(), writes: 0 }
    }

    fn answer(&mut self, request: StoreRequest) -> StoreReply {
        match request {
            StoreRequest::GetLocation { id } => StoreReply::Locations(
                self.locations.iter().filter(|row| row.id == id).cloned().collect(),
            ),
            StoreRequest::SaveLocation { location } => {
                if self.locations.iter().any(|row| row.id == location.id) {
                    StoreReply::Affected(0)
                } else {
                    self.locations.push(location);
                    StoreReply::Affected(1)
                }
            }
            StoreRequest::CreateSubdivision { subdivision } => {
                self.writes += 1;
                self.subdivisions.push(subdivision);
                StoreReply::Completed
            }
            StoreRequest::CreateLot { lot } => {
                self.writes += 1;
                self.lots.push(lot);
                StoreReply::Completed
            }
            StoreRequest::CreateLots { lots } => {
                self.writes += 1;
                self.lots.extend(lots);
                StoreReply::Completed
            }
            StoreRequest::GetLots { subdivision_id } => StoreReply::Lots(
                self.lots
                    .iter()
                    .filter(|lot| lot.subdivision_id == subdivision_id)
                    .map(|lot| LotRow {
                        name: lot.name.clone(),
                        subdivision_id: lot.subdivision_id.clone(),
                    })
                    .collect(),
            ),
            StoreRequest::GetLotLocations { name, subdivision_id } => StoreReply::LocationIds(
                self.lots
                    .iter()
                    .filter(|lot| lot.name == name && lot.subdivision_id == subdivision_id)
                    .flat_map(|lot| lot.area.clone())
                    .collect(),
            ),
            _ => StoreReply::Failed(DefaultAppError { message: None, status_code: 501 }),
        }
    }
}

fn run<T, X>(
    store: &mut Store,
    first: Step<T, X>,
    resume: fn(T, StoreReply) -> Step<T, X>,
) -> Result<X, DefaultAppError> {
    let mut step = first;
    loop {
        match step {
            Step::Done(result) => return result,
            Step::Ask(request, task) => {
                let reply = store.answer(request);
                step = resume(task, reply);
            }
        }
    }
}

fn storage() -> Storage {
    Storage::new(
        String::from("localhost"),
        String::from("postgres"),
        String::from("postgres"),
        String::from("postgres"),
    )
}

fn service() -> SubdivisionService {
    SubdivisionService::new(storage(), LocationService::new(storage()))
}

fn pt(lat: u64, long: u64) -> Point {
    Point { lat, long, lat_text: lat.to_string(), long_text: long.to_string() }
}

fn point(lat: f64, long: f64) -> Point {
    Point {
        lat: lat.to_bits(),
        long: long.to_bits(),
        lat_text: lat.to_string(),
        long_text: long.to_string(),
    }
}

fn pts(coords: &[(u64, u64)]) -> Vec<Point> {
    coords.iter().map(|(lat, long)| pt(*lat, *long)).collect()
}

fn lot_request(name: &str, area: Vec<Point>) -> LotRequest {
    LotRequest {
        area,
        id: format!("{}-s1", name),
        name: name.to_string(),
        subdivision_id: String::from("s1"),
    }
}

fn broken() -> DefaultAppError {
    DefaultAppError { message: Some(String::from("connection lost")), status_code: 503 }
}

fn lot_dto(name: &str, area: Vec<(u64, u64)>) -> LotDto {
    LotDto {
        area,
        id: format!("{}-s1", name),
        name: name.to_string(),
        subdivision_id: String::from("s1"),
    }
}

#[test]
fn service_keeps_what_it_was_made_with() {
    let service = service();
    assert_eq!(service.repo.storage, storage());
    assert_eq!(service.location_service, LocationService::new(storage()));
}

#[test]
fn create_then_aggregate_returns_the_boundary_in_order() {
    let points = vec![point(1.0, 1.0), point(2.0, 2.0), point(3.0, 3.0)];
    let boundary: Vec<(u64, u64)> = points.iter().map(|p| p.coords()).collect();
    let dto = SubdivisionRequest {
        id: String::from("s1"),
        name: String::from("Oak Hills"),
        area: points,
        lots: None,
    };
    let mut store = Store::new();
    let id = run(&mut store, service().create(dto), CreateTask::resume).unwrap();
    assert_eq!(id, "s1");
    assert_eq!(store.writes, 1);
    assert_eq!(store.locations.len(), 3);
    let stored = store.subdivisions[0].clone();
    assert_eq!(
        stored.area,
        vec![String::from("1-1"), String::from("2-2"), String::from("3-3")]
    );
    for policy in [ResolutionPolicy::Strict, ResolutionPolicy::Lenient] {
        let aggregate =
            run(&mut store, service().to_dto(stored.clone(), policy), AggregateTask::resume)
                .unwrap();
        assert_eq!(aggregate.dto.area, boundary);
        assert_eq!(aggregate.dto.id, "s1");
        assert_eq!(aggregate.dto.name, "Oak Hills");
        assert_eq!(aggregate.dto.lots, Some(Vec::new()));
        assert_eq!(aggregate.dropped, 0);
    }
    let area: Vec<(f64, f64)> = boundary
        .iter()
        .map(|(lat, long)| (f64::from_bits(*lat), f64::from_bits(*long)))
        .collect();
    assert_eq!(area, vec![(1.0, 1.0), (2.0, 2.0), (3.0, 3.0)]);
}

#[test]
fn create_writes_the_subdivision_with_the_identifiers_of_its_points() {
    let dto = SubdivisionRequest {
        id: String::from("s1"),
        name: String::from("Oak Hills"),
        area: pts(&[(3, 3), (1, 1)]),
        lots: Some(vec![lot_request("ignored", pts(&[(9, 9)]))]),
    };
    let mut store = Store::new();
    run(&mut store, service().create(dto), CreateTask::resume).unwrap();
    assert_eq!(
        store.subdivisions,
        vec![Subdivision {
            id: String::from("s1"),
            name: String::from("Oak Hills"),
            area: vec![String::from("3-3"), String::from("1-1")],
        }]
    );
    assert!(store.lots.is_empty());
    assert_eq!(store.locations.len(), 2);
}

#[test]
fn create_without_boundary_goes_straight_to_the_write() {
    let dto = SubdivisionRequest {
        id: String::from("s1"),
        name: String::from("Oak Hills"),
        area: Vec::new(),
        lots: None,
    };
    assert_eq!(
        service().create(dto),
        Step::Ask(
            StoreRequest::CreateSubdivision {
                subdivision: Subdivision {
                    id: String::from("s1"),
                    name: String::from("Oak Hills"),
                    area: Vec::new(),
                }
            },
            CreateTask::Persisting { id: String::from("s1") }
        )
    );
}

#[test]
fn create_writes_nothing_when_a_point_fails() {
    let dto = SubdivisionRequest {
        id: String::from("s1"),
        name: String::from("Oak Hills"),
        area: pts(&[(1, 1), (2, 2)]),
        lots: None,
    };
    let task = match service().create(dto) {
        Step::Ask(_, task) => task,
        Step::Done(_) => panic!("the lookup must be asked"),
    };
    assert_eq!(task.resume(StoreReply::Failed(broken())), Step::Done(Err(broken())));
}

#[test]
fn create_reports_a_failed_write() {
    let task = CreateTask::Persisting { id: String::from("s1") };
    assert_eq!(task.resume(StoreReply::Failed(broken())), Step::Done(Err(broken())));
    let task = CreateTask::Persisting { id: String::from("s1") };
    assert_eq!(task.resume(StoreReply::Completed), Step::Done(Ok(String::from("s1"))));
    let task = CreateTask::Persisting { id: String::from("s1") };
    assert_eq!(
        task.resume(StoreReply::Affected(1)),
        Step::Done(Err(DefaultAppError::unexpected_reply()))
    );
}

#[test]
fn create_lot_answers_with_the_identifier_of_the_request() {
    let dto = LotRequest {
        area: pts(&[(1, 1), (2, 2)]),
        id: String::from("chosen"),
        name: String::from("L1"),
        subdivision_id: String::from("s1"),
    };
    let mut store = Store::new();
    store.locations.push(Location::at(&pt(2, 2)));
    let id = run(&mut store, service().create_lot(dto), CreateTask::resume).unwrap();
    assert_eq!(id, "chosen");
    assert_eq!(
        store.lots,
        vec![Lot {
            name: String::from("L1"),
            subdivision_id: String::from("s1"),
            area: vec![String::from("1-1"), String::from("2-2")],
        }]
    );
    assert_eq!(store.locations.len(), 2);
}

#[test]
fn create_lots_writes_all_lots_at_once() {
    let dtos = vec![
        lot_request("L1", pts(&[(1, 1), (2, 2)])),
        lot_request("L2", Vec::new()),
        lot_request("L3", pts(&[(2, 2), (3, 3)])),
    ];
    let mut store = Store::new();
    let lots = run(&mut store, service().create_lots(dtos), CreateLotsTask::resume).unwrap();
    assert_eq!(store.writes, 1);
    assert_eq!(store.lots, lots);
    assert_eq!(lots.len(), 3);
    assert_eq!(lots[0].area, vec![String::from("1-1"), String::from("2-2")]);
    assert_eq!(lots[1].area, Vec::<String>::new());
    assert_eq!(lots[2].area, vec![String::from("2-2"), String::from("3-3")]);
    assert_eq!(store.locations.len(), 3);
    assert_eq!(
        created_lot_ids(&lots),
        vec![String::from("L1-s1"), String::from("L2-s1"), String::from("L3-s1")]
    );
    assert_eq!(copy_lots(&lots), lots);
}

#[test]
fn create_lots_of_nothing_asks_nothing() {
    assert_eq!(service().create_lots(Vec::new()), Step::Done(Ok(Vec::new())));
}

#[test]
fn create_lots_of_lots_without_points_goes_straight_to_the_write() {
    let dtos = vec![lot_request("L1", Vec::new())];
    let expected = vec![Lot {
        name: String::from("L1"),
        subdivision_id: String::from("s1"),
        area: Vec::new(),
    }];
    assert_eq!(
        service().create_lots(dtos),
        Step::Ask(
            StoreRequest::CreateLots { lots: expected.clone() },
            CreateLotsTask::Persisting { lots: expected }
        )
    );
}

#[test]
fn create_lots_writes_nothing_when_a_point_fails() {
    let dtos = vec![lot_request("L1", pts(&[(1, 1)])), lot_request("L2", pts(&[(2, 2)]))];
    let task = match service().create_lots(dtos) {
        Step::Ask(_, task) => task,
        Step::Done(_) => panic!("the lookup must be asked"),
    };
    assert_eq!(task.resume(StoreReply::Failed(broken())), Step::Done(Err(broken())));
}

#[test]
fn lot_display_identifier_joins_name_and_subdivision() {
    assert_eq!(derive_lot_display_id(&String::from("L1"), &String::from("s1")), "L1-s1");
    let lot = Lot { name: String::from("A"), subdivision_id: String::from("B"), area: Vec::new() };
    assert_eq!(lot.display_id(), "A-B");
}

#[test]
fn aggregate_carries_the_lots_with_their_boundaries() {
    let mut store = Store::new();
    let dto = SubdivisionRequest {
        id: String::from("s1"),
        name: String::from("Oak Hills"),
        area: pts(&[(1, 1), (2, 2), (3, 3)]),
        lots: None,
    };
    run(&mut store, service().create(dto), CreateTask::resume).unwrap();
    let dtos = vec![
        lot_request("L1", pts(&[(1, 1), (5, 5), (2, 2)])),
        lot_request("L2", Vec::new()),
        lot_request("L3", pts(&[(3, 3)])),
    ];
    run(&mut store, service().create_lots(dtos), CreateLotsTask::resume).unwrap();
    let stored = store.subdivisions[0].clone();
    let aggregate = run(
        &mut store,
        service().to_dto(stored, ResolutionPolicy::Strict),
        AggregateTask::resume,
    )
    .unwrap();
    assert_eq!(
        aggregate,
        Aggregate {
            dto: SubdivisionDto {
                id: String::from("s1"),
                name: String::from("Oak Hills"),
                area: vec![(1, 1), (2, 2), (3, 3)],
                lots: Some(vec![
                    lot_dto("L1", vec![(1, 1), (5, 5), (2, 2)]),
                    lot_dto("L2", Vec::new()),
                    lot_dto("L3", vec![(3, 3)]),
                ]),
            },
            dropped: 0,
        }
    );
}

#[test]
fn strict_aggregate_fails_on_a_point_that_does_not_resolve() {
    let mut store = Store::new();
    store.locations.push(Location::at(&pt(1, 1)));
    store.lots.push(Lot {
        name: String::from("L1"),
        subdivision_id: String::from("s1"),
        area: vec![String::from("1-1"), String::from("7-7")],
    });
    let subdivision = Subdivision {
        id: String::from("s1"),
        name: String::from("Oak Hills"),
        area: vec![String::from("1-1")],
    };
    let result = run(
        &mut store,
        service().to_dto(subdivision, ResolutionPolicy::Strict),
        AggregateTask::resume,
    );
    assert_eq!(result, Err(DefaultAppError::unexpected_results(0)));
}

#[test]
fn lenient_aggregate_counts_the_points_it_left_out() {
    let mut store = Store::new();
    store.locations.push(Location::at(&pt(1, 1)));
    store.locations.push(Location::at(&pt(2, 2)));
    store.lots.push(Lot {
        name: String::from("L1"),
        subdivision_id: String::from("s1"),
        area: vec![String::from("1-1"), String::from("7-7"), String::from("2-2")],
    });
    let subdivision = Subdivision {
        id: String::from("s1"),
        name: String::from("Oak Hills"),
        area: vec![String::from("8-8"), String::from("2-2"), String::from("9-9")],
    };
    let aggregate = run(
        &mut store,
        service().to_dto(subdivision, ResolutionPolicy::Lenient),
        AggregateTask::resume,
    )
    .unwrap();
    assert_eq!(aggregate.dto.area, vec![(2, 2)]);
    assert_eq!(aggregate.dto.lots, Some(vec![lot_dto("L1", vec![(1, 1), (2, 2)])]));
    assert_eq!(aggregate.dropped, 3);
}

#[test]
fn aggregate_ends_when_the_lots_cannot_be_read() {
    let subdivision =
        Subdivision { id: String::from("s1"), name: String::from("Oak"), area: Vec::new() };
    let step = service().to_dto(subdivision.clone(), ResolutionPolicy::Lenient);
    let task = match step {
        Step::Ask(request, task) => {
            assert_eq!(request, StoreRequest::GetLots { subdivision_id: String::from("s1") });
            assert_eq!(
                task,
                AggregateTask::Lots {
                    subdivision,
                    policy: ResolutionPolicy::Lenient,
                    reading: LotsTask::Listing
                }
            );
            task
        }
        Step::Done(_) => panic!("the lots must be asked"),
    };
    assert_eq!(task.resume(StoreReply::Failed(broken())), Step::Done(Err(broken())));
}

#[test]
fn lots_are_read_in_the_order_of_the_listing() {
    let rows = vec![
        LotRow { name: String::from("L1"), subdivision_id: String::from("s1") },
        LotRow { name: String::from("L2"), subdivision_id: String::from("s1") },
    ];
    let step = LotsTask::Listing.resume(StoreReply::Lots(rows.clone()));
    let task = match step {
        Step::Ask(request, task) => {
            assert_eq!(
                request,
                StoreRequest::GetLotLocations {
                    name: String::from("L1"),
                    subdivision_id: String::from("s1")
                }
            );
            task
        }
        Step::Done(_) => panic!("the boundary must be asked"),
    };
    let step = task.resume(StoreReply::LocationIds(vec![String::from("a"), String::from("b")]));
    let task = match step {
        Step::Ask(request, task) => {
            assert_eq!(
                request,
                StoreRequest::GetLotLocations {
                    name: String::from("L2"),
                    subdivision_id: String::from("s1")
                }
            );
            task
        }
        Step::Done(_) => panic!("the boundary must be asked"),
    };
    let step = task.resume(StoreReply::LocationIds(vec![String::from("c")]));
    assert_eq!(
        step,
        Step::Done(Ok(vec![
            Lot {
                name: String::from("L1"),
                subdivision_id: String::from("s1"),
                area: vec![String::from("a"), String::from("b")],
            },
            Lot {
                name: String::from("L2"),
                subdivision_id: String::from("s1"),
                area: vec![String::from("c")],
            },
        ]))
    );
    assert_eq!(LotsTask::Listing.resume(StoreReply::Lots(Vec::new())), Step::Done(Ok(Vec::new())));
    assert_eq!(
        LotsTask::Listing.resume(StoreReply::Completed),
        Step::Done(Err(DefaultAppError::unexpected_reply()))
    );
}

#[test]
fn get_lots_by_subdivision_asks_for_the_lots_first() {
    assert_eq!(
        service().repo.get_lots_by_subdivision(String::from("s1")),
        Step::Ask(StoreRequest::GetLots { subdivision_id: String::from("s1") }, LotsTask::Listing)
    );
}

#[test]
fn search_by_name_asks_the_store() {
    assert_eq!(
        service().search_by_name(String::from("oak")),
        Step::Ask(StoreRequest::SearchByName { name: String::from("oak") }, SearchTask {})
    );
}

#[test]
fn search_by_location_uses_the_default_radius_and_the_anchor_point() {
    assert_eq!(
        service().search_by_location((1, 2)),
        Step::Ask(
            StoreRequest::SearchByLocation {
                coords: (1, 2),
                radius: DEFAULT_SEARCH_RADIUS,
                measured_from: RepresentativePoint::AnchorPoint,
            },
            SearchTask {}
        )
    );
}

#[test]
fn search_assembles_each_row_in_order() {
    let rows = vec![
        AreaRow {
            id: String::from("s1"),
            name: String::from("Oak Hills"),
            lats: vec![1, 2, 3],
            longs: vec![10, 20, 30],
        },
        AreaRow {
            id: String::from("s2"),
            name: String::from("Oakland"),
            lats: Vec::new(),
            longs: Vec::new(),
        },
    ];
    let expected = vec![
        SubdivisionDto {
            id: String::from("s1"),
            name: String::from("Oak Hills"),
            area: vec![(1, 10), (2, 20), (3, 30)],
            lots: None,
        },
        SubdivisionDto {
            id: String::from("s2"),
            name: String::from("Oakland"),
            area: Vec::new(),
            lots: None,
        },
    ];
    assert_eq!(subdivisions_from_rows(&rows), Ok(expected.clone()));
    assert_eq!(SearchTask {}.resume(StoreReply::Areas(rows)), Step::Done(Ok(expected)));
    assert_eq!(SearchTask {}.resume(StoreReply::Areas(Vec::new())), Step::Done(Ok(Vec::new())));
}

#[test]
fn search_refuses_rows_whose_arrays_differ_in_length() {
    let rows = vec![
        AreaRow { id: String::from("s1"), name: String::from("a"), lats: vec![1], longs: vec![1] },
        AreaRow { id: String::from("s2"), name: String::from("b"), lats: vec![1, 2], longs: vec![1] },
        AreaRow { id: String::from("s3"), name: String::from("c"), lats: vec![], longs: vec![1, 2, 3] },
    ];
    assert_eq!(subdivisions_from_rows(&rows), Err(DefaultAppError::mismatched_arrays(2, 1)));
    assert_eq!(
        SearchTask {}.resume(StoreReply::Areas(rows)),
        Step::Done(Err(DefaultAppError::mismatched_arrays(2, 1)))
    );
}

#[test]
fn search_passes_a_store_failure_on() {
    assert_eq!(SearchTask {}.resume(StoreReply::Failed(broken())), Step::Done(Err(broken())));
    assert_eq!(
        SearchTask {}.resume(StoreReply::Completed),
        Step::Done(Err(DefaultAppError::unexpected_reply()))
    );
}

#[test]
fn search_request_prefers_the_name() {
    let params = SearchSubdivisionParams {
        name: Some(String::from("oak")),
        lat: Some(1),
        long: Some(2),
    };
    assert_eq!(params.clone().criteria(), Ok(SearchCriteria::Name(String::from("oak"))));
    assert_eq!(service().search(params), service().search_by_name(String::from("oak")));
}

#[test]
fn search_request_falls_back_to_the_point() {
    let params = SearchSubdivisionParams { name: None, lat: Some(1), long: Some(2) };
    assert_eq!(params.clone().criteria(), Ok(SearchCriteria::Point((1, 2))));
    assert_eq!(service().search(params), service().search_by_location((1, 2)));
}

#[test]
fn search_request_with_neither_is_invalid() {
    for params in [
        SearchSubdivisionParams { name: None, lat: None, long: None },
        SearchSubdivisionParams { name: None, lat: Some(1), long: None },
        SearchSubdivisionParams { name: None, lat: None, long: Some(2) },
    ] {
        assert_eq!(params.clone().criteria(), Err(DefaultAppError::invalid_search()));
        assert_eq!(service().search(params), Step::Done(Err(DefaultAppError::invalid_search())));
    }
}

#[test]
fn get_all_returns_the_previews_as_listed() {
    assert_eq!(service().get_all(), Step::Ask(StoreRequest::GetAllPreview, ListingTask {}));
    let previews = vec![
        SubdivisionPreview { id: String::from("s1"), name: String::from("Oak"), lots_amount: 2 },
        SubdivisionPreview { id: String::from("s2"), name: String::from("Elm"), lots_amount: 0 },
    ];
    assert_eq!(
        ListingTask {}.resume(StoreReply::Previews(previews.clone())),
        Step::Done(Ok(previews))
    );
    assert_eq!(ListingTask {}.resume(StoreReply::Failed(broken())), Step::Done(Err(broken())));
}

#[test]
fn get_subdivision_lots_assembles_each_lot() {
    let step = service().get_subdivision_lots(String::from("s1"));
    assert_eq!(
        step,
        Step::Ask(
            StoreRequest::GetSubdivisionLots { subdivision_id: String::from("s1") },
            LotAreasTask { subdivision_id: String::from("s1") }
        )
    );
    let rows = vec![
        LotAreaRow { name: String::from("L1"), lats: vec![1, 2], longs: vec![3, 4] },
        LotAreaRow { name: String::from("L2"), lats: vec![5], longs: vec![6] },
    ];
    let expected = vec![lot_dto("L1", vec![(1, 3), (2, 4)]), lot_dto("L2", vec![(5, 6)])];
    assert_eq!(lots_from_rows(&rows, &String::from("s1")), Ok(expected.clone()));
    let task = LotAreasTask { subdivision_id: String::from("s1") };
    assert_eq!(task.resume(StoreReply::LotAreas(rows)), Step::Done(Ok(expected)));
}

#[test]
fn get_subdivision_lots_refuses_arrays_of_different_lengths() {
    let rows = vec![LotAreaRow { name: String::from("L1"), lats: vec![1, 2], longs: vec![3] }];
    assert_eq!(
        lots_from_rows(&rows, &String::from("s1")),
        Err(DefaultAppError::mismatched_arrays(2, 1))
    );
    let task = LotAreasTask { subdivision_id: String::from("s1") };
    assert_eq!(task.resume(StoreReply::Failed(broken())), Step::Done(Err(broken())));
}

#[test]
fn tasks_with_nothing_pending_end_on_a_failed_reply() {
    let lots = vec![Lot {
        name: String::from("L1"),
        subdivision_id: String::from("s1"),
        area: Vec::new(),
    }];
    let subdivision =
        Subdivision { id: String::from("s1"), name: String::from("Oak"), area: Vec::new() };
    let ring = match real_estate_server::geometry::ring_to_points(
        vec![String::from("1-1")],
        ResolutionPolicy::Lenient,
    ) {
        Step::Ask(_, ring) => ring,
        Step::Done(_) => panic!("the lookup must be asked"),
    };
    let task = AggregateTask::LotRing {
        subdivision,
        policy: ResolutionPolicy::Lenient,
        lots: lots.clone(),
        done: vec![lot_dto("L1", Vec::new())],
        dropped: 0,
        ring,
    };
    assert_eq!(task.resume(StoreReply::Failed(broken())), Step::Done(Err(broken())));
}
