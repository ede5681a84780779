//! Search, recommendation and universal queries: request and response
//! shapes. The engine returns point identifiers; scoring detail stays
//! inside the engine.

use vstd::prelude::*;

use crate::engine::find_collection;
use crate::engine::has_col;
use crate::engine::EngineState;
use crate::error::EngineError;
use crate::ops::points::PointRecord;
use crate::ops::ColName;

verus! {

/// A nearest-neighbour search.
#[derive(Debug)]
pub struct SearchQuery {
    /// The query vector; must match the collection's dimension.
    pub vector: Vec<i64>,
    /// Maximum number of results.
    pub limit: usize,
}

/// A grouped nearest-neighbour search.
#[derive(Debug)]
pub struct SearchGroupQuery {
    /// The query vector; must match the collection's dimension.
    pub vector: Vec<i64>,
    /// Maximum number of groups.
    pub limit: usize,
    /// Maximum number of hits per group; must be at least one.
    pub group_size: usize,
}

/// A recommendation by positive and negative example points.
#[derive(Debug)]
pub struct RecommendQuery {
    /// Example points to move towards; must not be empty.
    pub positive: Vec<u64>,
    /// Example points to move away from.
    pub negative: Vec<u64>,
    /// Maximum number of results.
    pub limit: usize,
}

/// A grouped recommendation.
#[derive(Debug)]
pub struct RecommendGroupQuery {
    /// Example points to move towards; must not be empty.
    pub positive: Vec<u64>,
    /// Example points to move away from.
    pub negative: Vec<u64>,
    /// Maximum number of groups.
    pub limit: usize,
    /// Maximum number of hits per group; must be at least one.
    pub group_size: usize,
}

/// A universal query: a window over the collection's points.
#[derive(Clone, Copy, Debug, PartialEq, Eq, Structural)]
pub struct UniversalQuery {
    /// Index of the first result.
    pub offset: usize,
    /// Maximum number of results.
    pub limit: usize,
}

/// One group of a grouped result.
#[derive(Debug)]
pub struct PointGroup {
    /// The identifier the group is keyed by.
    pub id: u64,
    /// The hits of this group.
    pub hits: Vec<u64>,
}

/// A grouped result.
#[derive(Debug)]
pub struct GroupsResult {
    pub groups: Vec<PointGroup>,
}

/// Query requests.
#[derive(Debug)]
pub enum QueryRequest {
    /// Search for nearest vectors.
    Search(ColName, SearchQuery),
    /// Several searches against one collection.
    SearchBatch(ColName, Vec<SearchQuery>),
    /// Search, grouped.
    SearchGroup(ColName, SearchGroupQuery),
    /// Recommend points by examples.
    Recommend(ColName, RecommendQuery),
    /// Several recommendations against one collection.
    RecommendBatch(ColName, Vec<RecommendQuery>),
    /// Recommend, grouped.
    RecommendGroup(ColName, RecommendGroupQuery),
    /// Universal query.
    Query(ColName, UniversalQuery),
}

/// Responses to query requests.
#[derive(Debug)]
pub enum QueryResponse {
    /// Identifiers of the found points.
    Search(Vec<u64>),
    /// One result list per search of the batch.
    SearchBatch(Vec<Vec<u64>>),
    /// Grouped search result.
    SearchGroup(GroupsResult),
    /// Identifiers of the recommended points.
    Recommend(Vec<u64>),
    /// One result list per recommendation of the batch.
    RecommendBatch(Vec<Vec<u64>>),
    /// Grouped recommendation result.
    RecommendGroup(GroupsResult),
    /// Identifiers selected by the universal query.
    Query(Vec<u64>),
}

/// Every search of the batch has a vector of the given dimension.
pub open spec fn all_searches_ok(qs: Seq<SearchQuery>, size: usize) -> bool {
    forall|i: int| 0 <= i < qs.len() ==> (#[trigger] qs[i]).vector@.len() == size
}

/// Every recommendation of the batch has a positive example.
pub open spec fn all_recommends_ok(qs: Seq<RecommendQuery>) -> bool {
    forall|i: int| 0 <= i < qs.len() ==> (#[trigger] qs[i]).positive@.len() > 0
}

/// The identifiers of the first `limit` stored points, in storage order.
pub open spec fn head_ids(pts: Seq<PointRecord>, limit: usize, v: Seq<u64>) -> bool {
    &&& v.len() == if limit <= pts.len() {
        limit as int
    } else {
        pts.len() as int
    }
    &&& forall|t: int| 0 <= t < v.len() ==> v[t] == pts[t].id
}

/// The identifiers of the stored points in the window given by offset
/// and limit, in storage order.
pub open spec fn window_ids(pts: Seq<PointRecord>, offset: usize, limit: usize, v: Seq<u64>) -> bool {
    let n = pts.len() as int;
    let start = if offset as int <= n {
        offset as int
    } else {
        n
    };
    let end = if offset as int + limit as int <= n {
        offset as int + limit as int
    } else {
        n
    };
    &&& v.len() == end - start
    &&& forall|t: int| 0 <= t < v.len() ==> v[t] == pts[start + t].id
}

/// One single-hit group for each of the first `limit` stored points.
pub open spec fn head_groups(pts: Seq<PointRecord>, limit: usize, gr: GroupsResult) -> bool {
    &&& gr.groups@.len() == if limit <= pts.len() {
        limit as int
    } else {
        pts.len() as int
    }
    &&& forall|t: int|
        0 <= t < gr.groups@.len() ==> (#[trigger] gr.groups@[t]).id == pts[t].id
            && gr.groups@[t].hits@.len() == 1 && gr.groups@[t].hits@[0] == pts[t].id
}

/// What a search yields: the query vector must have the collection's
/// dimension; the reply lists the first `limit` point identifiers.
pub open spec fn search_post(
    e0: EngineState,
    e1: EngineState,
    name: String,
    q: SearchQuery,
    r: Result<QueryResponse, EngineError>,
) -> bool {
    &&& e1 == e0
    &&& if has_col(e0.collections@, name@) {
        exists|i: int|
            0 <= i < e0.collections@.len() && (#[trigger] e0.collections@[i]).name@ == name@ && if q.vector@.len()
                != e0.collections@[i].config.size {
                r matches Err(EngineError::BadInput(m)) && m@ == "vector rejected: wrong dimension"@
            } else {
                r matches Ok(QueryResponse::Search(v)) && head_ids(
                    e0.collections@[i].points@,
                    q.limit,
                    v@,
                )
            }
    } else {
        r matches Err(EngineError::NotFound(n)) && n@ == name@
    }
}

/// What a search batch yields: every query vector must have the
/// collection's dimension; the reply holds one result list per query.
pub open spec fn search_batch_post(
    e0: EngineState,
    e1: EngineState,
    name: String,
    qs: Vec<SearchQuery>,
    r: Result<QueryResponse, EngineError>,
) -> bool {
    &&& e1 == e0
    &&& if has_col(e0.collections@, name@) {
        exists|i: int|
            0 <= i < e0.collections@.len() && (#[trigger] e0.collections@[i]).name@ == name@ && if !all_searches_ok(
                qs@,
                e0.collections@[i].config.size,
            ) {
                r matches Err(EngineError::BadInput(m)) && m@ == "vector rejected: wrong dimension"@
            } else {
                r matches Ok(QueryResponse::SearchBatch(v)) && v@.len() == qs@.len() && forall|b: int|
                    0 <= b < v@.len() ==> head_ids(
                        e0.collections@[i].points@,
                        qs@[b].limit,
                        (#[trigger] v@[b])@,
                    )
            }
    } else {
        r matches Err(EngineError::NotFound(n)) && n@ == name@
    }
}

/// What a grouped search yields: one single-hit group per found point.
pub open spec fn search_group_post(
    e0: EngineState,
    e1: EngineState,
    name: String,
    q: SearchGroupQuery,
    r: Result<QueryResponse, EngineError>,
) -> bool {
    &&& e1 == e0
    &&& if has_col(e0.collections@, name@) {
        exists|i: int|
            0 <= i < e0.collections@.len() && (#[trigger] e0.collections@[i]).name@ == name@ && if q.vector@.len()
                != e0.collections@[i].config.size {
                r matches Err(EngineError::BadInput(m)) && m@ == "vector rejected: wrong dimension"@
            } else if q.group_size == 0 {
                r matches Err(EngineError::BadInput(m)) && m@
                    == "group size must be at least one"@
            } else {
                r matches Ok(QueryResponse::SearchGroup(gr)) && head_groups(
                    e0.collections@[i].points@,
                    q.limit,
                    gr,
                )
            }
    } else {
        r matches Err(EngineError::NotFound(n)) && n@ == name@
    }
}

/// What a recommendation yields: it needs at least one positive example;
/// the reply lists the first `limit` point identifiers.
pub open spec fn recommend_post(
    e0: EngineState,
    e1: EngineState,
    name: String,
    q: RecommendQuery,
    r: Result<QueryResponse, EngineError>,
) -> bool {
    &&& e1 == e0
    &&& if has_col(e0.collections@, name@) {
        exists|i: int|
            0 <= i < e0.collections@.len() && (#[trigger] e0.collections@[i]).name@ == name@ && if q.positive@.len()
                == 0 {
                r matches Err(EngineError::BadInput(m)) && m@
                    == "recommendation needs a positive example"@
            } else {
                r matches Ok(QueryResponse::Recommend(v)) && head_ids(
                    e0.collections@[i].points@,
                    q.limit,
                    v@,
                )
            }
    } else {
        r matches Err(EngineError::NotFound(n)) && n@ == name@
    }
}

/// What a recommendation batch yields.
pub open spec fn recommend_batch_post(
    e0: EngineState,
    e1: EngineState,
    name: String,
    qs: Vec<RecommendQuery>,
    r: Result<QueryResponse, EngineError>,
) -> bool {
    &&& e1 == e0
    &&& if has_col(e0.collections@, name@) {
        exists|i: int|
            0 <= i < e0.collections@.len() && (#[trigger] e0.collections@[i]).name@ == name@ && if !all_recommends_ok(
                qs@,
            ) {
                r matches Err(EngineError::BadInput(m)) && m@
                    == "recommendation needs a positive example"@
            } else {
                r matches Ok(QueryResponse::RecommendBatch(v)) && v@.len() == qs@.len() && forall|
                    b: int,
                |
                    0 <= b < v@.len() ==> head_ids(
                        e0.collections@[i].points@,
                        qs@[b].limit,
                        (#[trigger] v@[b])@,
                    )
            }
    } else {
        r matches Err(EngineError::NotFound(n)) && n@ == name@
    }
}

/// What a grouped recommendation yields.
pub open spec fn recommend_group_post(
    e0: EngineState,
    e1: EngineState,
    name: String,
    q: RecommendGroupQuery,
    r: Result<QueryResponse, EngineError>,
) -> bool {
    &&& e1 == e0
    &&& if has_col(e0.collections@, name@) {
        exists|i: int|
            0 <= i < e0.collections@.len() && (#[trigger] e0.collections@[i]).name@ == name@ && if q.positive@.len()
                == 0 {
                r matches Err(EngineError::BadInput(m)) && m@
                    == "recommendation needs a positive example"@
            } else if q.group_size == 0 {
                r matches Err(EngineError::BadInput(m)) && m@
                    == "group size must be at least one"@
            } else {
                r matches Ok(QueryResponse::RecommendGroup(gr)) && head_groups(
                    e0.collections@[i].points@,
                    q.limit,
                    gr,
                )
            }
    } else {
        r matches Err(EngineError::NotFound(n)) && n@ == name@
    }
}

/// What a universal query yields: the identifiers in the window given
/// by its offset and limit.
pub open spec fn universal_query_post(
    e0: EngineState,
    e1: EngineState,
    name: String,
    q: UniversalQuery,
    r: Result<QueryResponse, EngineError>,
) -> bool {
    &&& e1 == e0
    &&& if has_col(e0.collections@, name@) {
        r matches Ok(QueryResponse::Query(v)) && exists|i: int|
            0 <= i < e0.collections@.len() && (#[trigger] e0.collections@[i]).name@ == name@
                && window_ids(e0.collections@[i].points@, q.offset, q.limit, v@)
    } else {
        r matches Err(EngineError::NotFound(n)) && n@ == name@
    }
}

/// What one query request does and replies, variant by variant.
pub open spec fn query_post(
    e0: EngineState,
    e1: EngineState,
    req: QueryRequest,
    r: Result<QueryResponse, EngineError>,
) -> bool {
    match req {
        QueryRequest::Search(name, q) => search_post(e0, e1, name, q, r),
        QueryRequest::SearchBatch(name, qs) => search_batch_post(e0, e1, name, qs, r),
        QueryRequest::SearchGroup(name, q) => search_group_post(e0, e1, name, q, r),
        QueryRequest::Recommend(name, q) => recommend_post(e0, e1, name, q, r),
        QueryRequest::RecommendBatch(name, qs) => recommend_batch_post(e0, e1, name, qs, r),
        QueryRequest::RecommendGroup(name, q) => recommend_group_post(e0, e1, name, q, r),
        QueryRequest::Query(name, q) => universal_query_post(e0, e1, name, q, r),
    }
}

/// Collect the identifiers of the first `limit` stored points.
fn collect_head_ids(pts: &Vec<PointRecord>, limit: usize) -> (v: Vec<u64>)
    ensures
        head_ids(pts@, limit, v@),
{
    let n = pts.len();
    let count = if limit > n {
        n
    } else {
        limit
    };
    let mut v: Vec<u64> = Vec::new();
    let mut t: usize = 0;
    while t < count
        invariant
            count <= pts@.len(),
            t <= count,
            v@.len() == t,
            forall|s: int| 0 <= s < t ==> v@[s] == pts@[s].id,
        decreases count - t,
    {
        v.push(pts[t].id);
        t += 1;
    }
    v
}

/// Collect the identifiers of the stored points in the window.
fn collect_window_ids(pts: &Vec<PointRecord>, offset: usize, limit: usize) -> (v: Vec<u64>)
    ensures
        window_ids(pts@, offset, limit, v@),
{
    let n = pts.len();
    let start = if offset > n {
        n
    } else {
        offset
    };
    let avail = n - start;
    let count = if limit > avail {
        avail
    } else {
        limit
    };
    let mut v: Vec<u64> = Vec::new();
    let mut t: usize = 0;
    while t < count
        invariant
            n == pts@.len(),
            start + count <= n,
            t <= count,
            v@.len() == t,
            forall|s: int| 0 <= s < t ==> v@[s] == pts@[start + s].id,
        decreases count - t,
    {
        v.push(pts[start + t].id);
        t += 1;
    }
    v
}

/// Build one single-hit group for each of the first `limit` points.
fn collect_head_groups(pts: &Vec<PointRecord>, limit: usize) -> (gr: GroupsResult)
    ensures
        head_groups(pts@, limit, gr),
{
    let n = pts.len();
    let count = if limit > n {
        n
    } else {
        limit
    };
    let mut groups: Vec<PointGroup> = Vec::new();
    let mut t: usize = 0;
    while t < count
        invariant
            count <= pts@.len(),
            t <= count,
            groups@.len() == t,
            forall|s: int|
                0 <= s < t ==> (#[trigger] groups@[s]).id == pts@[s].id && groups@[s].hits@.len()
                    == 1 && groups@[s].hits@[0] == pts@[s].id,
        decreases count - t,
    {
        let mut hits: Vec<u64> = Vec::new();
        hits.push(pts[t].id);
        groups.push(PointGroup { id: pts[t].id, hits });
        t += 1;
    }
    GroupsResult { groups }
}

/// Report whether every search of the batch fits the dimension.
fn searches_all_ok(qs: &Vec<SearchQuery>, size: usize) -> (r: bool)
    ensures
        r == all_searches_ok(qs@, size),
{
    let n = qs.len();
    let mut i: usize = 0;
    while i < n
        invariant
            n == qs@.len(),
            i <= n,
            forall|j: int| 0 <= j < i ==> (#[trigger] qs@[j]).vector@.len() == size,
        decreases n - i,
    {
        if qs[i].vector.len() != size {
            return false;
        }
        i += 1;
    }
    true
}

/// Report whether every recommendation of the batch has a positive
/// example.
fn recommends_all_ok(qs: &Vec<RecommendQuery>) -> (r: bool)
    ensures
        r == all_recommends_ok(qs@),
{
    let n = qs.len();
    let mut i: usize = 0;
    while i < n
        invariant
            n == qs@.len(),
            i <= n,
            forall|j: int| 0 <= j < i ==> (#[trigger] qs@[j]).positive@.len() > 0,
        decreases n - i,
    {
        if qs[i].positive.len() == 0 {
            return false;
        }
        i += 1;
    }
    true
}

/// Execute one query request against the engine.
pub fn handle_query(engine: &mut EngineState, req: QueryRequest) -> (r: Result<
    QueryResponse,
    EngineError,
>)
    requires
        old(engine).wf(),
    ensures
        final(engine).wf(),
        query_post(*old(engine), *final(engine), req, r),
{
    match req {
        QueryRequest::Search(name, q) => {
            match find_collection(&engine.collections, &name) {
                None => Err(EngineError::NotFound(name)),
                Some(ci) => {
                    proof {
                        assert(engine.collections@[ci as int].name@ == name@);
                    }
                    if q.vector.len() != engine.collections[ci].config.size {
                        Err(EngineError::BadInput("vector rejected: wrong dimension".to_owned()))
                    } else {
                        Ok(
                            QueryResponse::Search(
                                collect_head_ids(&engine.collections[ci].points, q.limit),
                            ),
                        )
                    }
                },
            }
        },
        QueryRequest::SearchBatch(name, qs) => {
            match find_collection(&engine.collections, &name) {
                None => Err(EngineError::NotFound(name)),
                Some(ci) => {
                    proof {
                        assert(engine.collections@[ci as int].name@ == name@);
                    }
                    if !searches_all_ok(&qs, engine.collections[ci].config.size) {
                        Err(EngineError::BadInput("vector rejected: wrong dimension".to_owned()))
                    } else {
                        let m = qs.len();
                        let mut v: Vec<Vec<u64>> = Vec::new();
                        let mut b: usize = 0;
                        while b < m
                            invariant
                                m == qs@.len(),
                                b <= m,
                                ci < engine.collections@.len(),
                                *engine == *old(engine),
                                v@.len() == b,
                                forall|s: int|
                                    0 <= s < b ==> head_ids(
                                        engine.collections@[ci as int].points@,
                                        qs@[s].limit,
                                        (#[trigger] v@[s])@,
                                    ),
                            decreases m - b,
                        {
                            v.push(collect_head_ids(&engine.collections[ci].points, qs[b].limit));
                            b += 1;
                        }
                        Ok(QueryResponse::SearchBatch(v))
                    }
                },
            }
        },
        QueryRequest::SearchGroup(name, q) => {
            match find_collection(&engine.collections, &name) {
                None => Err(EngineError::NotFound(name)),
                Some(ci) => {
                    proof {
                        assert(engine.collections@[ci as int].name@ == name@);
                    }
                    if q.vector.len() != engine.collections[ci].config.size {
                        Err(EngineError::BadInput("vector rejected: wrong dimension".to_owned()))
                    } else if q.group_size == 0 {
                        Err(EngineError::BadInput("group size must be at least one".to_owned()))
                    } else {
                        Ok(
                            QueryResponse::SearchGroup(
                                collect_head_groups(&engine.collections[ci].points, q.limit),
                            ),
                        )
                    }
                },
            }
        },
        QueryRequest::Recommend(name, q) => {
            match find_collection(&engine.collections, &name) {
                None => Err(EngineError::NotFound(name)),
                Some(ci) => {
                    proof {
                        assert(engine.collections@[ci as int].name@ == name@);
                    }
                    if q.positive.len() == 0 {
                        Err(
                            EngineError::BadInput(
                                "recommendation needs a positive example".to_owned(),
                            ),
                        )
                    } else {
                        Ok(
                            QueryResponse::Recommend(
                                collect_head_ids(&engine.collections[ci].points, q.limit),
                            ),
                        )
                    }
                },
            }
        },
        QueryRequest::RecommendBatch(name, qs) => {
            match find_collection(&engine.collections, &name) {
                None => Err(EngineError::NotFound(name)),
                Some(ci) => {
                    proof {
                        assert(engine.collections@[ci as int].name@ == name@);
                    }
                    if !recommends_all_ok(&qs) {
                        Err(
                            EngineError::BadInput(
                                "recommendation needs a positive example".to_owned(),
                            ),
                        )
                    } else {
                        let m = qs.len();
                        let mut v: Vec<Vec<u64>> = Vec::new();
                        let mut b: usize = 0;
                        while b < m
                            invariant
                                m == qs@.len(),
                                b <= m,
                                ci < engine.collections@.len(),
                                *engine == *old(engine),
                                v@.len() == b,
                                forall|s: int|
                                    0 <= s < b ==> head_ids(
                                        engine.collections@[ci as int].points@,
                                        qs@[s].limit,
                                        (#[trigger] v@[s])@,
                                    ),
                            decreases m - b,
                        {
                            v.push(collect_head_ids(&engine.collections[ci].points, qs[b].limit));
                            b += 1;
                        }
                        Ok(QueryResponse::RecommendBatch(v))
                    }
                },
            }
        },
        QueryRequest::RecommendGroup(name, q) => {
            match find_collection(&engine.collections, &name) {
                None => Err(EngineError::NotFound(name)),
                Some(ci) => {
                    proof {
                        assert(engine.collections@[ci as int].name@ == name@);
                    }
                    if q.positive.len() == 0 {
                        Err(
                            EngineError::BadInput(
                                "recommendation needs a positive example".to_owned(),
                            ),
                        )
                    } else if q.group_size == 0 {
                        Err(EngineError::BadInput("group size must be at least one".to_owned()))
                    } else {
                        Ok(
                            QueryResponse::RecommendGroup(
                                collect_head_groups(&engine.collections[ci].points, q.limit),
                            ),
                        )
                    }
                },
            }
        },
        QueryRequest::Query(name, q) => {
            match find_collection(&engine.collections, &name) {
                None => Err(EngineError::NotFound(name)),
                Some(ci) => {
                    proof {
                        assert(engine.collections@[ci as int].name@ == name@);
                    }
                    Ok(
                        QueryResponse::Query(
                            collect_window_ids(&engine.collections[ci].points, q.offset, q.limit),
                        ),
                    )
                },
            }
        },
    }
}

} // verus!
