//! Request-scoped dependency resolution and role-gated access control for a
//! small URL-shortener back office.

pub mod role;
pub mod identity;
pub mod cache_local;
pub mod errors;
pub mod context;
pub mod user_service;
pub mod text;
pub mod gate;
pub mod htmx;
pub mod csrf;
pub mod embed;
pub mod navigation;
