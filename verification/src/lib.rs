//! Staff items of a small inventory service: the models, the stored
//! entity, the clock abstraction, the use case that adds a staff, the
//! store's reading of an inserted row, and the status that traced spans
//! close with.
pub mod entities;
pub mod models;
pub mod repositories;
pub mod time_helper;
pub mod tracer;
pub mod usecases;
