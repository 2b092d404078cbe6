//! A verified user-management core: an entity model with business-rule
//! validation, a persistence port with an in-memory reference backend, the
//! orchestration service that sequences validation, writes and reads, and the
//! client-side form state that mirrors the validation rules.

pub mod api;
pub mod form;
pub mod models;
pub mod repository;
pub mod service;
pub mod sql;
pub mod text;
