//! A bounded, newest-first history of fee readings together with an expiring
//! single-value cache that collapses concurrent misses into one upstream fetch.

pub mod cache;
pub mod fetch;
pub mod history;
pub mod refresher;
pub mod response;
