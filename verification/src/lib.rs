//! Core of a read-through caching proxy for player profiles.
//!
//! A lookup key is either a UUID or a username. The library classifies the
//! key, builds the GraphQL request for the upstream service, checks the
//! decoded response and says what to cache and what to answer. Network and
//! cache access stay with the caller.

pub mod cache;
pub mod error;
pub mod identifier;
pub mod lookup;
pub mod model;
pub mod request;
pub mod validate;

pub use cache::{
    weigh, CachePolicy, DEFAULT_MAX_CAPACITY, DEFAULT_TIME_TO_LIVE_SECS, NUMBER_SIZE, TAG_SIZE,
    TIMESTAMP_SIZE,
};
pub use error::{DispatchError, LookupError};
pub use identifier::{classify, IdKind, UUID_TEXT_LEN};
pub use lookup::{CacheStep, CacheWrite, Lookup, PendingFetch};
pub use model::{
    ApiResponse, ApiResponseData, Collections, CrownLevel, Currency, Game, MinimalPlayer, Party,
    Player, ProgressionData, Rank, Server, ServerCategory, Social, Status, Timestamp, TrophyData,
};
pub use request::{
    build_request, frame, request_body, request_headers, variable_name, Header, QueryDocuments,
    UPSTREAM_URL,
};
pub use validate::{extract, ValidationError};
