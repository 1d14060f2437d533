//! Incremental fuzzy-search session: a query buffer, a selection cursor over
//! a growing result window, and the highlight positions of each visible match,
//! on top of the `nucleo` matching engine.

pub mod app;
pub mod handler;
pub mod highlight;
pub mod query;
pub mod search_engine;
