//! Feature-flag decision engine: the flag data model, its evaluation
//! strategies, the sticky bucketing hash and the authorization checks of the
//! management endpoints.

pub mod hash;
pub mod data;
pub mod auth;
