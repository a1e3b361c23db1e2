//! The core of a classified-ads backend: the ad data model, the filter
//! predicate builder, the cursor and page statements built from it, the
//! decisions of the HTTP surface, and an in-memory repository that states
//! what the repository operations mean.

pub mod filter;
pub mod images;
pub mod literal;
pub mod matching;
pub mod model;
pub mod numeral;
pub mod repo;
pub mod routes;
pub mod statement;
pub mod store;
