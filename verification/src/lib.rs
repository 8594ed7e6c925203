//! A small agricultural yield service: a versioned model with `predict` and
//! `retrain` operations, shared across concurrent callers through a verified
//! exclusive-access coordinator.

pub mod errors;
pub mod handlers;
pub mod history;
pub mod ml_service;
pub mod models;
pub mod text;

