//! The top-level message shapes: a request is one of four categories,
//! and a response mirrors the category and operation of its request.

use vstd::prelude::*;

use crate::client::RroClient;
use crate::engine::EngineState;
use crate::error::RROError;
use crate::worker::Bridge;
use crate::error::EngineError;
use crate::error::OpKind;
use crate::ops::collections::alias_post;
use crate::ops::collections::collection_post;
use crate::ops::collections::handle_alias;
use crate::ops::collections::handle_collection;
use crate::ops::collections::AliasRequest;
use crate::ops::collections::AliasResponse;
use crate::ops::collections::CollectionRequest;
use crate::ops::collections::CollectionResponse;
use crate::ops::points::handle_points;
use crate::ops::points::points_post;
use crate::ops::points::PointsRequest;
use crate::ops::points::PointsResponse;
use crate::ops::query::handle_query;
use crate::ops::query::query_post;
use crate::ops::query::QueryRequest;
use crate::ops::query::QueryResponse;

verus! {

/// A request, tagged by category.
#[derive(Debug)]
pub enum RRORequest {
    Collection(CollectionRequest),
    Alias(AliasRequest),
    Points(PointsRequest),
    Query(QueryRequest),
}

/// A response, tagged by the same category as its request.
#[derive(Debug)]
pub enum RROResponse {
    Collection(CollectionResponse),
    Alias(AliasResponse),
    Points(PointsResponse),
    Query(QueryResponse),
}

/// What the engine hands back for one request.
pub type RROResult = Result<RROResponse, EngineError>;

/// The operation a request asks for.
pub open spec fn request_kind(req: RRORequest) -> OpKind {
    match req {
        RRORequest::Collection(r) => match r {
            CollectionRequest::List => OpKind::CollectionList,
            CollectionRequest::Get(..) => OpKind::CollectionGet,
            CollectionRequest::Create(..) => OpKind::CollectionCreate,
            CollectionRequest::Update(..) => OpKind::CollectionUpdate,
            CollectionRequest::Delete(..) => OpKind::CollectionDelete,
            CollectionRequest::Exists(..) => OpKind::CollectionExists,
        },
        RRORequest::Alias(r) => match r {
            AliasRequest::List => OpKind::AliasList,
            AliasRequest::Get(..) => OpKind::AliasGet,
            AliasRequest::Create(..) => OpKind::AliasCreate,
            AliasRequest::Delete(..) => OpKind::AliasDelete,
            AliasRequest::Rename(..) => OpKind::AliasRename,
        },
        RRORequest::Points(r) => match r {
            PointsRequest::Get(..) => OpKind::PointsGet,
            PointsRequest::Count(..) => OpKind::PointsCount,
            PointsRequest::Delete(..) => OpKind::PointsDelete,
            PointsRequest::Upsert(..) => OpKind::PointsUpsert,
            PointsRequest::UpdateVectors(..) => OpKind::PointsUpdateVectors,
            PointsRequest::DeleteVectors(..) => OpKind::PointsDeleteVectors,
            PointsRequest::SetPayload(..) => OpKind::PointsSetPayload,
            PointsRequest::OverwritePayload(..) => OpKind::PointsOverwritePayload,
            PointsRequest::DeletePayload(..) => OpKind::PointsDeletePayload,
            PointsRequest::ClearPayload(..) => OpKind::PointsClearPayload,
            PointsRequest::Scroll(..) => OpKind::PointsScroll,
        },
        RRORequest::Query(r) => match r {
            QueryRequest::Search(..) => OpKind::QuerySearch,
            QueryRequest::SearchBatch(..) => OpKind::QuerySearchBatch,
            QueryRequest::SearchGroup(..) => OpKind::QuerySearchGroup,
            QueryRequest::Recommend(..) => OpKind::QueryRecommend,
            QueryRequest::RecommendBatch(..) => OpKind::QueryRecommendBatch,
            QueryRequest::RecommendGroup(..) => OpKind::QueryRecommendGroup,
            QueryRequest::Query(..) => OpKind::QueryUniversal,
        },
    }
}

/// The operation a response answers.
pub open spec fn spec_response_kind(resp: RROResponse) -> OpKind {
    match resp {
        RROResponse::Collection(r) => match r {
            CollectionResponse::List(..) => OpKind::CollectionList,
            CollectionResponse::Get(..) => OpKind::CollectionGet,
            CollectionResponse::Create(..) => OpKind::CollectionCreate,
            CollectionResponse::Update(..) => OpKind::CollectionUpdate,
            CollectionResponse::Delete(..) => OpKind::CollectionDelete,
            CollectionResponse::Exists(..) => OpKind::CollectionExists,
        },
        RROResponse::Alias(r) => match r {
            AliasResponse::List(..) => OpKind::AliasList,
            AliasResponse::Get(..) => OpKind::AliasGet,
            AliasResponse::Create(..) => OpKind::AliasCreate,
            AliasResponse::Delete(..) => OpKind::AliasDelete,
            AliasResponse::Rename(..) => OpKind::AliasRename,
        },
        RROResponse::Points(r) => match r {
            PointsResponse::Get(..) => OpKind::PointsGet,
            PointsResponse::Count(..) => OpKind::PointsCount,
            PointsResponse::Delete(..) => OpKind::PointsDelete,
            PointsResponse::Upsert(..) => OpKind::PointsUpsert,
            PointsResponse::UpdateVectors(..) => OpKind::PointsUpdateVectors,
            PointsResponse::DeleteVectors(..) => OpKind::PointsDeleteVectors,
            PointsResponse::SetPayload(..) => OpKind::PointsSetPayload,
            PointsResponse::OverwritePayload(..) => OpKind::PointsOverwritePayload,
            PointsResponse::DeletePayload(..) => OpKind::PointsDeletePayload,
            PointsResponse::ClearPayload(..) => OpKind::PointsClearPayload,
            PointsResponse::Scroll(..) => OpKind::PointsScroll,
        },
        RROResponse::Query(r) => match r {
            QueryResponse::Search(..) => OpKind::QuerySearch,
            QueryResponse::SearchBatch(..) => OpKind::QuerySearchBatch,
            QueryResponse::SearchGroup(..) => OpKind::QuerySearchGroup,
            QueryResponse::Recommend(..) => OpKind::QueryRecommend,
            QueryResponse::RecommendBatch(..) => OpKind::QueryRecommendBatch,
            QueryResponse::RecommendGroup(..) => OpKind::QueryRecommendGroup,
            QueryResponse::Query(..) => OpKind::QueryUniversal,
        },
    }
}

/// A response matches a request when it answers exactly the operation
/// the request asked for. No cross-category or cross-operation response
/// is ever valid.
pub open spec fn response_matches(req: RRORequest, resp: RROResponse) -> bool {
    spec_response_kind(resp) == request_kind(req)
}

/// The operation a response answers, computed at run time (used to
/// report protocol violations).
pub fn response_kind(resp: &RROResponse) -> (k: OpKind)
    ensures
        k == spec_response_kind(*resp),
{
    match resp {
        RROResponse::Collection(r) => match r {
            CollectionResponse::List(..) => OpKind::CollectionList,
            CollectionResponse::Get(..) => OpKind::CollectionGet,
            CollectionResponse::Create(..) => OpKind::CollectionCreate,
            CollectionResponse::Update(..) => OpKind::CollectionUpdate,
            CollectionResponse::Delete(..) => OpKind::CollectionDelete,
            CollectionResponse::Exists(..) => OpKind::CollectionExists,
        },
        RROResponse::Alias(r) => match r {
            AliasResponse::List(..) => OpKind::AliasList,
            AliasResponse::Get(..) => OpKind::AliasGet,
            AliasResponse::Create(..) => OpKind::AliasCreate,
            AliasResponse::Delete(..) => OpKind::AliasDelete,
            AliasResponse::Rename(..) => OpKind::AliasRename,
        },
        RROResponse::Points(r) => match r {
            PointsResponse::Get(..) => OpKind::PointsGet,
            PointsResponse::Count(..) => OpKind::PointsCount,
            PointsResponse::Delete(..) => OpKind::PointsDelete,
            PointsResponse::Upsert(..) => OpKind::PointsUpsert,
            PointsResponse::UpdateVectors(..) => OpKind::PointsUpdateVectors,
            PointsResponse::DeleteVectors(..) => OpKind::PointsDeleteVectors,
            PointsResponse::SetPayload(..) => OpKind::PointsSetPayload,
            PointsResponse::OverwritePayload(..) => OpKind::PointsOverwritePayload,
            PointsResponse::DeletePayload(..) => OpKind::PointsDeletePayload,
            PointsResponse::ClearPayload(..) => OpKind::PointsClearPayload,
            PointsResponse::Scroll(..) => OpKind::PointsScroll,
        },
        RROResponse::Query(r) => match r {
            QueryResponse::Search(..) => OpKind::QuerySearch,
            QueryResponse::SearchBatch(..) => OpKind::QuerySearchBatch,
            QueryResponse::SearchGroup(..) => OpKind::QuerySearchGroup,
            QueryResponse::Recommend(..) => OpKind::QueryRecommend,
            QueryResponse::RecommendBatch(..) => OpKind::QueryRecommendBatch,
            QueryResponse::RecommendGroup(..) => OpKind::QueryRecommendGroup,
            QueryResponse::Query(..) => OpKind::QueryUniversal,
        },
    }
}

/// What executing one request does to the engine and what it replies:
/// the category post of the request's own category, with the reply
/// unwrapped from its category tag.
pub open spec fn dispatch_post(
    e0: EngineState,
    e1: EngineState,
    req: RRORequest,
    r: RROResult,
) -> bool {
    match req {
        RRORequest::Collection(cr) => match r {
            Ok(RROResponse::Collection(resp)) => collection_post(e0, e1, cr, Ok(resp)),
            Ok(_) => false,
            Err(e) => collection_post(e0, e1, cr, Err(e)),
        },
        RRORequest::Alias(ar) => match r {
            Ok(RROResponse::Alias(resp)) => alias_post(e0, e1, ar, Ok(resp)),
            Ok(_) => false,
            Err(e) => alias_post(e0, e1, ar, Err(e)),
        },
        RRORequest::Points(pr) => match r {
            Ok(RROResponse::Points(resp)) => points_post(e0, e1, pr, Ok(resp)),
            Ok(_) => false,
            Err(e) => points_post(e0, e1, pr, Err(e)),
        },
        RRORequest::Query(qr) => match r {
            Ok(RROResponse::Query(resp)) => query_post(e0, e1, qr, Ok(resp)),
            Ok(_) => false,
            Err(e) => query_post(e0, e1, qr, Err(e)),
        },
    }
}

/// Execute one request against the engine: the single dispatch point
/// every spawned task runs through.
pub fn execute(engine: &mut EngineState, req: RRORequest) -> (r: RROResult)
    requires
        old(engine).wf(),
    ensures
        final(engine).wf(),
        dispatch_post(*old(engine), *final(engine), req, r),
        r matches Ok(resp) ==> response_matches(req, resp),
{
    let r: RROResult = match req {
        RRORequest::Collection(cr) => match handle_collection(engine, cr) {
            Ok(resp) => Ok(RROResponse::Collection(resp)),
            Err(e) => Err(e),
        },
        RRORequest::Alias(ar) => match handle_alias(engine, ar) {
            Ok(resp) => Ok(RROResponse::Alias(resp)),
            Err(e) => Err(e),
        },
        RRORequest::Points(pr) => match handle_points(engine, pr) {
            Ok(resp) => Ok(RROResponse::Points(resp)),
            Err(e) => Err(e),
        },
        RRORequest::Query(qr) => match handle_query(engine, qr) {
            Ok(resp) => Ok(RROResponse::Query(resp)),
            Err(e) => Err(e),
        },
    };
    proof {
        lemma_dispatch_variant_integrity(*old(engine), *engine, req, r);
    }
    r
}

/// For each request variant, only the matching response variant is ever
/// produced: any successful outcome that satisfies the dispatch
/// semantics answers exactly the operation that was asked.
pub proof fn lemma_dispatch_variant_integrity(
    e0: EngineState,
    e1: EngineState,
    req: RRORequest,
    r: RROResult,
)
    requires
        dispatch_post(e0, e1, req, r),
    ensures
        r matches Ok(resp) ==> response_matches(req, resp),
{
}

/// Configuration for one instance.
#[derive(Clone, Copy, Debug, PartialEq, Eq, Structural)]
pub struct EngineConfig {
    /// Capacity of the bounded request channel; must be at least one.
    pub channel_capacity: usize,
}

/// Default capacity of the bounded request channel.
pub const RRO_CHANNEL_BUFFER: usize = 1024;

/// The instance bootstrapper.
#[derive(Debug)]
pub struct RROInstance;

impl RROInstance {
    /// Construct the engine, move it behind a fresh bridge, and hand
    /// back a ready handle: accepting, with an empty engine, before any
    /// message can be enqueued. An invalid configuration is a startup
    /// error and no instance starts.
    pub fn start(config: Option<EngineConfig>) -> (r: Result<RroClient, RROError>)
        ensures
            match config {
                Some(c) => {
                    if c.channel_capacity == 0 {
                        r matches Err(RROError::Startup(m)) && m@
                            == "channel capacity must be at least one"@
                    } else {
                        r matches Ok(client) && client.inv() && fresh_client(
                            client,
                            c.channel_capacity,
                        )
                    }
                },
                None => r matches Ok(client) && client.inv() && fresh_client(
                    client,
                    RRO_CHANNEL_BUFFER,
                ),
            },
    {
        let capacity = match config {
            None => RRO_CHANNEL_BUFFER,
            Some(c) => {
                if c.channel_capacity == 0 {
                    return Err(RROError::Startup("channel capacity must be at least one".to_owned()));
                }
                c.channel_capacity
            },
        };
        let engine = EngineState::new();
        let mut bridge = Bridge::new(capacity, engine);
        bridge.begin_accepting();
        Ok(RroClient { bridge })
    }
}

/// A freshly started handle: accepting, with the given channel
/// capacity, no prior state in the engine, no buffered message, no
/// task, no slot, and the termination signal not fired.
pub open spec fn fresh_client(client: RroClient, capacity: usize) -> bool {
    &&& client.bridge.phase is Accepting
    &&& client.bridge.capacity == capacity
    &&& client.bridge.queue@.len() == 0
    &&& client.bridge.tasks == 0
    &&& client.bridge.slots@.len() == 0
    &&& !client.bridge.terminated
    &&& client.bridge.engine.collections@.len() == 0
    &&& client.bridge.engine.aliases@.len() == 0
    &&& client.bridge.engine.op_seq == 0
}

} // verus!
