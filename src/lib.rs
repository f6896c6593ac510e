//! A typed client library for the start.gg GraphQL API.
//!
//! The library holds the remote schema's data types with their defaulting
//! accessors, the polymorphic identifier type, the response envelope, and
//! the decisions of the query gateway (the request it sends and how an
//! outcome becomes a result). Performing the HTTP round trip
//! itself is left to the caller.

pub mod enums;
pub mod error;
pub mod field;
pub mod gateway;
pub mod structs;
pub mod text;
pub mod timestamp;

pub use enums::{GGResponse, IdValue, GGID};
pub use error::GGError;
pub use gateway::{GGQuery, GGRequest, QueryOutcome, Vars};
pub use structs::{GGData, GGTournament};
pub use timestamp::GGTimestamp;
