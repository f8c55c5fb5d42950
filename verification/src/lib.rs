//! Domain core of a real-estate registry: subdivisions, their lots, and the
//! boundary rings that outline them.
//!
//! The crate performs no I/O. Every operation is expressed as values: a
//! request to the backing store, the decision taken on the store's reply, and
//! the result assembled from the rows that came back. Whoever runs an
//! operation asks [`app_state::AppState::plan`] how a request is carried out,
//! sends the statement, and hands the reply to the task that is waiting for
//! it, until the operation is done.
//!
//! The modules fall into four groups.
//!
//! * Data: [`location`], [`subdivision`], [`api_contracts`], [`error`],
//!   [`storage`].
//! * Statements: [`text`], [`statement`], [`location_repo`],
//!   [`subdivision_repo`].
//! * Operations: [`store`], [`location_service`], [`geometry`], [`creation`],
//!   [`search`], [`aggregate`], [`subdivision_service`], [`app_state`].
//! * What is proved of whole operations, over a model of the store:
//!   [`location_table`], [`store_model`], [`registry_laws`], [`round_trip`],
//!   [`operation_laws`], [`failure_laws`].

pub mod aggregate;
pub mod api_contracts;
pub mod app_state;
pub mod creation;
pub mod error;
pub mod failure_laws;
pub mod geometry;
pub mod location;
pub mod location_repo;
pub mod location_service;
pub mod location_table;
pub mod operation_laws;
pub mod registry_laws;
pub mod round_trip;
pub mod search;
pub mod statement;
pub mod storage;
pub mod store;
pub mod store_model;
pub mod subdivision;
pub mod subdivision_repo;
pub mod subdivision_service;
pub mod text;
