//! A verified core for a "likes" service: a store of (user, post) like
//! relations with a one-like-per-pair invariant, paginated and aggregate
//! queries over it, a repository that maps storage outcomes to domain
//! errors, and the request-level orchestration that validates input and
//! translates domain errors to transport status codes.

pub mod clients;
pub mod config;
pub mod database;
pub mod error;
pub mod federation;
pub mod laws;
pub mod like;
pub mod repository;
pub mod service;
pub mod store;
pub mod timestamp;
