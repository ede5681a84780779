//! Error taxonomy of the bridge.
//!
//! Callers always receive one of these typed values: an engine (domain)
//! error forwarded verbatim, a protocol violation (a reply whose variant
//! does not match the request), a timeout carrying the duration used, a
//! closed-channel report, or a startup failure.

use vstd::prelude::*;

verus! {

/// Identifies one logical operation of the dispatch protocol. Used to
/// report which reply variant was expected and which actually arrived.
#[derive(Clone, Copy, Debug, PartialEq, Eq, Structural)]
pub enum OpKind {
    CollectionList,
    CollectionGet,
    CollectionCreate,
    CollectionUpdate,
    CollectionDelete,
    CollectionExists,
    AliasList,
    AliasGet,
    AliasCreate,
    AliasDelete,
    AliasRename,
    PointsGet,
    PointsCount,
    PointsDelete,
    PointsUpsert,
    PointsUpdateVectors,
    PointsDeleteVectors,
    PointsSetPayload,
    PointsOverwritePayload,
    PointsDeletePayload,
    PointsClearPayload,
    PointsScroll,
    QuerySearch,
    QuerySearchBatch,
    QuerySearchGroup,
    QueryRecommend,
    QueryRecommendBatch,
    QueryRecommendGroup,
    QueryUniversal,
}

/// A domain error reported by the engine while executing a request.
/// The bridge forwards these verbatim; it never interprets them.
#[derive(Debug)]
pub enum EngineError {
    /// No collection or alias with the given name exists.
    NotFound(String),
    /// A collection or alias with the given name already exists.
    AlreadyExists(String),
    /// The request's payload is invalid (wrong vector dimension,
    /// duplicate payload keys, an empty example list, a zero size).
    BadInput(String),
    /// An internal engine failure.
    ServiceError(String),
}

/// The error a caller of the bridge observes.
#[derive(Debug)]
pub enum RROError {
    /// A domain error of the engine, forwarded verbatim.
    Engine(EngineError),
    /// No reply arrived within the configured number of milliseconds.
    Timeout(u64),
    /// The request channel is closed (the instance is shutting down),
    /// or the reply slot was abandoned without a write.
    ChannelClosed,
    /// The reply's variant did not match the request: a bridge-internal
    /// protocol violation, surfaced instead of panicking the worker.
    UnexpectedResponse { expected: OpKind, actual: OpKind },
    /// The instance could not be constructed.
    Startup(String),
}

impl RROError {
    /// Build the protocol-violation error for a mismatched reply.
    pub fn unexpected(expected: OpKind, actual: OpKind) -> (r: RROError)
        ensures
            r == (RROError::UnexpectedResponse { expected, actual }),
    {
        RROError::UnexpectedResponse { expected, actual }
    }
}

} // verus!
