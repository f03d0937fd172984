//! A distributed lease (an expiring mutual-exclusion lock) client over a
//! key-value table with conditional writes and native per-record expiry.
//!
//! The library holds the lease protocol's logic: client configuration, the
//! table schema check, the conditional create / renew / release requests with
//! their fencing tokens, the acquisition state machine and the renewal state
//! machine of a held lease. Sending requests, sleeping and the in-process
//! locks are left to the caller, which feeds the outcomes back.
pub mod acquire;
pub mod builder;
pub mod lease;
pub mod locks;
pub mod record;
pub mod schema;
pub mod span;

pub use builder::{ClientBuilder, ClientConfig, ConfigError};
pub use span::TimeSpan;
pub use record::{
    create_outcome, create_request, expiry_after, release_request, renew_request, BackendError,
    CreateRequest, ReleaseRequest, RenewRequest, WriteOutcome,
};
pub use schema::{
    check_schema, AttrType, AttributeDef, Described, KeyElement, KeyRole, SchemaError,
    SchemaProblem, TableShape, TimeToLiveShape,
};
pub use acquire::{
    retry_delay, AcquireAction, AcquirePhase, AcquireResult, Acquisition, CreateOutcome,
    LocalLockOutcome, Patience,
};
pub use lease::{LeaseCore, LeaseState};
pub use locks::entry_is_idle;
