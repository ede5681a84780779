//! Point mutation and retrieval: request and response shapes.

use vstd::prelude::*;

use crate::engine::col_wf;
use crate::engine::copy_payload;
use crate::engine::has_col;
use crate::engine::ids_distinct;
use crate::engine::kv_distinct;
use crate::engine::point_wf;
use crate::engine::find_collection;
use crate::engine::find_point;
use crate::engine::ids_contain;
use crate::engine::lemma_filter_distinct_keys;
use crate::engine::lemma_filter_distinct_points;
use crate::engine::lemma_filter_member;
use crate::engine::lemma_points_swap_wf;
use crate::engine::EngineState;
use crate::error::EngineError;
use crate::ops::ColName;

verus! {

/// One key/value entry of a point's payload.
#[derive(Debug)]
pub struct PayloadEntry {
    pub key: String,
    pub value: String,
}

/// A point as stored in a collection: an identifier, a vector of the
/// collection's dimension (or empty once its vector was deleted), and a
/// payload of key/value entries with pairwise distinct keys.
#[derive(Debug)]
pub struct PointRecord {
    pub id: u64,
    pub vector: Vec<i64>,
    pub payload: Vec<PayloadEntry>,
}

/// A replacement vector for one point.
#[derive(Debug)]
pub struct PointVectors {
    pub id: u64,
    pub vector: Vec<i64>,
}

/// A point as handed back to callers: the vector is omitted.
#[derive(Debug)]
pub struct LocalRecord {
    pub id: u64,
    pub payload: Vec<PayloadEntry>,
}

/// Pagination over a collection's points.
#[derive(Clone, Copy, Debug, PartialEq, Eq, Structural)]
pub struct ScrollQuery {
    /// Index of the first point to return.
    pub offset: usize,
    /// Maximum number of points to return.
    pub limit: usize,
}

/// One page of points, with the offset of the next page when one exists.
#[derive(Debug)]
pub struct ScrollResult {
    pub points: Vec<LocalRecord>,
    pub next_offset: Option<usize>,
}

/// Completion status of a mutation.
#[derive(Clone, Copy, Debug, PartialEq, Eq, Structural)]
pub enum UpdateStatus {
    Acknowledged,
    Completed,
}

/// The engine's report for a completed mutation.
#[derive(Clone, Copy, Debug, PartialEq, Eq, Structural)]
pub struct UpdateResult {
    /// Sequence number the engine assigned to the operation.
    pub operation_id: u64,
    pub status: UpdateStatus,
}

/// Point mutation and retrieval requests.
#[derive(Debug)]
pub enum PointsRequest {
    /// Fetch the points with the given identifiers.
    Get(ColName, Vec<u64>),
    /// Count the points of a collection.
    Count(ColName),
    /// Delete the points with the given identifiers.
    Delete(ColName, Vec<u64>),
    /// Insert the given points, replacing any with the same identifier.
    Upsert(ColName, Vec<PointRecord>),
    /// Replace the vectors of the listed points, where present.
    UpdateVectors(ColName, Vec<PointVectors>),
    /// Delete the vectors of the points with the given identifiers.
    DeleteVectors(ColName, Vec<u64>),
    /// Merge the given entries into the payloads of the listed points.
    SetPayload(ColName, Vec<u64>, Vec<PayloadEntry>),
    /// Replace the payloads of the listed points with the given entries.
    OverwritePayload(ColName, Vec<u64>, Vec<PayloadEntry>),
    /// Remove the given keys from the payloads of the listed points.
    DeletePayload(ColName, Vec<u64>, Vec<String>),
    /// Empty the payloads of the listed points.
    ClearPayload(ColName, Vec<u64>),
    /// Page through a collection's points.
    Scroll(ColName, ScrollQuery),
}

/// Responses to point requests.
#[derive(Debug)]
pub enum PointsResponse {
    /// The requested points, in storage order.
    Get(Vec<LocalRecord>),
    /// Number of points in the collection.
    Count(usize),
    /// Deletion report.
    Delete(UpdateResult),
    /// Upsert report.
    Upsert(UpdateResult),
    /// Vector update report.
    UpdateVectors(UpdateResult),
    /// Vector deletion report.
    DeleteVectors(UpdateResult),
    /// Payload merge report.
    SetPayload(UpdateResult),
    /// Payload overwrite report.
    OverwritePayload(UpdateResult),
    /// Payload key deletion report.
    DeletePayload(UpdateResult),
    /// Payload clearing report.
    ClearPayload(UpdateResult),
    /// One page of points.
    Scroll(ScrollResult),
}

/// Some stored point carries the given identifier.
pub open spec fn has_pt(s: Seq<PointRecord>, id: u64) -> bool {
    exists|i: int| 0 <= i < s.len() && s[i].id == id
}

/// The index of the point with the given identifier (unique while the
/// identifiers are distinct).
pub open spec fn pt_at(s: Seq<PointRecord>, id: u64) -> int {
    choose|i: int| 0 <= i < s.len() && s[i].id == id
}

/// Upserting one point: it replaces the point with the same identifier,
/// or is appended when no such point exists.
pub open spec fn upsert_one(s: Seq<PointRecord>, p: PointRecord) -> Seq<PointRecord> {
    if has_pt(s, p.id) {
        s.update(pt_at(s, p.id), p)
    } else {
        s.push(p)
    }
}

/// Upserting a batch of points, in order; a later point with the same
/// identifier wins.
pub open spec fn upsert_all(s: Seq<PointRecord>, ps: Seq<PointRecord>) -> Seq<PointRecord>
    decreases ps.len(),
{
    if ps.len() == 0 {
        s
    } else {
        upsert_all(upsert_one(s, ps.first()), ps.drop_first())
    }
}

/// Some payload entry carries the given key.
pub open spec fn kv_has(s: Seq<PayloadEntry>, key: Seq<char>) -> bool {
    exists|i: int| 0 <= i < s.len() && s[i].key@ == key
}

/// The index of the entry with the given key (unique while keys are
/// distinct).
pub open spec fn kv_at(s: Seq<PayloadEntry>, key: Seq<char>) -> int {
    choose|i: int| 0 <= i < s.len() && s[i].key@ == key
}

/// Merging one payload entry: it replaces the entry with the same key,
/// or is appended when the key is new.
pub open spec fn merge_one(s: Seq<PayloadEntry>, en: PayloadEntry) -> Seq<PayloadEntry> {
    if kv_has(s, en.key@) {
        s.update(kv_at(s, en.key@), en)
    } else {
        s.push(en)
    }
}

/// Merging a batch of payload entries, in order.
pub open spec fn merge_kv(s: Seq<PayloadEntry>, es: Seq<PayloadEntry>) -> Seq<PayloadEntry>
    decreases es.len(),
{
    if es.len() == 0 {
        s
    } else {
        merge_kv(merge_one(s, es.first()), es.drop_first())
    }
}

/// Some key of the list equals the given one.
pub open spec fn str_in(keys: Seq<String>, k: Seq<char>) -> bool {
    exists|i: int| 0 <= i < keys.len() && keys[i]@ == k
}

/// An input point is acceptable for a collection of the given dimension:
/// its vector has exactly that dimension and its payload keys are
/// pairwise distinct.
pub open spec fn point_ok(p: PointRecord, size: usize) -> bool {
    &&& p.vector@.len() == size
    &&& kv_distinct(p.payload@)
}

/// Every input point is acceptable.
pub open spec fn all_points_ok(ps: Seq<PointRecord>, size: usize) -> bool {
    forall|i: int| 0 <= i < ps.len() ==> point_ok(#[trigger] ps[i], size)
}

/// Every replacement vector has the collection's dimension.
pub open spec fn all_vectors_ok(pvs: Seq<PointVectors>, size: usize) -> bool {
    forall|i: int| 0 <= i < pvs.len() ==> (#[trigger] pvs[i]).vector@.len() == size
}

/// Applying one vector replacement: the point with the given identifier
/// gets the new vector; a missing identifier is ignored.
pub open spec fn apply_pv_one(s: Seq<PointRecord>, pv: PointVectors) -> Seq<PointRecord> {
    if has_pt(s, pv.id) {
        s.update(
            pt_at(s, pv.id),
            PointRecord { id: pv.id, vector: pv.vector, payload: s[pt_at(s, pv.id)].payload },
        )
    } else {
        s
    }
}

/// Applying a batch of vector replacements, in order.
pub open spec fn apply_pv_all(s: Seq<PointRecord>, pvs: Seq<PointVectors>) -> Seq<PointRecord>
    decreases pvs.len(),
{
    if pvs.len() == 0 {
        s
    } else {
        apply_pv_all(apply_pv_one(s, pvs.first()), pvs.drop_first())
    }
}

/// Keeps a point whose identifier is in the list.
pub open spec fn sel_ids(ids: Seq<u64>) -> spec_fn(PointRecord) -> bool {
    |p: PointRecord| ids.contains(p.id)
}

/// Keeps a point whose identifier is not in the list.
pub open spec fn not_sel_ids(ids: Seq<u64>) -> spec_fn(PointRecord) -> bool {
    |p: PointRecord| !ids.contains(p.id)
}

/// Keeps a payload entry whose key is not in the list.
pub open spec fn kv_keeps(keys: Seq<String>) -> spec_fn(PayloadEntry) -> bool {
    |en: PayloadEntry| !str_in(keys, en.key@)
}

/// The operation counter after one mutation.
pub open spec fn next_seq(s: u64) -> u64 {
    if s == u64::MAX {
        s
    } else {
        (s + 1) as u64
    }
}

/// The report for the mutation with the given sequence number.
pub open spec fn completed(op: u64) -> UpdateResult {
    UpdateResult { operation_id: op, status: UpdateStatus::Completed }
}

/// The engine after a mutation of the points of collection `i`: that
/// collection's points become `pts1`, everything else is unchanged, and
/// the operation counter advanced once.
pub open spec fn col_points_updated(
    e0: EngineState,
    e1: EngineState,
    i: int,
    pts1: Seq<PointRecord>,
) -> bool {
    &&& e1.aliases == e0.aliases
    &&& e1.op_seq == next_seq(e0.op_seq)
    &&& e1.collections@.len() == e0.collections@.len()
    &&& forall|j: int|
        0 <= j < e0.collections@.len() && j != i ==> e1.collections@[j] == e0.collections@[j]
    &&& e1.collections@[i].name == e0.collections@[i].name
    &&& e1.collections@[i].config == e0.collections@[i].config
    &&& e1.collections@[i].points@ == pts1
}

/// The listed points lost their vectors; every other point is unchanged.
pub open spec fn vectors_cleared(
    pts0: Seq<PointRecord>,
    pts1: Seq<PointRecord>,
    ids: Seq<u64>,
) -> bool {
    &&& pts1.len() == pts0.len()
    &&& forall|j: int|
        0 <= j < pts0.len() && ids.contains(pts0[j].id) ==> (#[trigger] pts1[j]).id == pts0[j].id
            && pts1[j].vector@.len() == 0 && pts1[j].payload == pts0[j].payload
    &&& forall|j: int| 0 <= j < pts0.len() && !ids.contains(pts0[j].id) ==> #[trigger] pts1[j] == pts0[j]
}

/// The listed points had the entries merged into their payloads; every
/// other point is unchanged.
pub open spec fn payload_merged(
    pts0: Seq<PointRecord>,
    pts1: Seq<PointRecord>,
    ids: Seq<u64>,
    entries: Seq<PayloadEntry>,
) -> bool {
    &&& pts1.len() == pts0.len()
    &&& forall|j: int|
        0 <= j < pts0.len() && ids.contains(pts0[j].id) ==> (#[trigger] pts1[j]).id == pts0[j].id
            && pts1[j].vector == pts0[j].vector && pts1[j].payload@ == merge_kv(
            pts0[j].payload@,
            entries,
        )
    &&& forall|j: int| 0 <= j < pts0.len() && !ids.contains(pts0[j].id) ==> #[trigger] pts1[j] == pts0[j]
}

/// The listed points had their payloads replaced by the entries; every
/// other point is unchanged.
pub open spec fn payload_overwritten(
    pts0: Seq<PointRecord>,
    pts1: Seq<PointRecord>,
    ids: Seq<u64>,
    entries: Seq<PayloadEntry>,
) -> bool {
    &&& pts1.len() == pts0.len()
    &&& forall|j: int|
        0 <= j < pts0.len() && ids.contains(pts0[j].id) ==> (#[trigger] pts1[j]).id == pts0[j].id
            && pts1[j].vector == pts0[j].vector && pts1[j].payload@ == entries
    &&& forall|j: int| 0 <= j < pts0.len() && !ids.contains(pts0[j].id) ==> #[trigger] pts1[j] == pts0[j]
}

/// The listed points had the given keys removed from their payloads;
/// every other point is unchanged.
pub open spec fn payload_keys_removed(
    pts0: Seq<PointRecord>,
    pts1: Seq<PointRecord>,
    ids: Seq<u64>,
    keys: Seq<String>,
) -> bool {
    &&& pts1.len() == pts0.len()
    &&& forall|j: int|
        0 <= j < pts0.len() && ids.contains(pts0[j].id) ==> (#[trigger] pts1[j]).id == pts0[j].id
            && pts1[j].vector == pts0[j].vector && pts1[j].payload@ == pts0[j].payload@.filter(
            kv_keeps(keys),
        )
    &&& forall|j: int| 0 <= j < pts0.len() && !ids.contains(pts0[j].id) ==> #[trigger] pts1[j] == pts0[j]
}

/// The listed points had their payloads emptied; every other point is
/// unchanged.
pub open spec fn payload_cleared(
    pts0: Seq<PointRecord>,
    pts1: Seq<PointRecord>,
    ids: Seq<u64>,
) -> bool {
    &&& pts1.len() == pts0.len()
    &&& forall|j: int|
        0 <= j < pts0.len() && ids.contains(pts0[j].id) ==> (#[trigger] pts1[j]).id == pts0[j].id
            && pts1[j].vector == pts0[j].vector && pts1[j].payload@.len() == 0
    &&& forall|j: int| 0 <= j < pts0.len() && !ids.contains(pts0[j].id) ==> #[trigger] pts1[j] == pts0[j]
}

/// What fetching points yields: the stored points with a listed
/// identifier, in storage order, without their vectors.
pub open spec fn get_points_post(
    e0: EngineState,
    e1: EngineState,
    name: String,
    ids: Vec<u64>,
    r: Result<PointsResponse, EngineError>,
) -> bool {
    &&& e1 == e0
    &&& if has_col(e0.collections@, name@) {
        r matches Ok(PointsResponse::Get(v)) && exists|i: int|
            {
                let f = e0.collections@[i].points@.filter(sel_ids(ids@));
                &&& 0 <= i < e0.collections@.len()
                &&& (#[trigger] e0.collections@[i]).name@ == name@
                &&& v@.len() == f.len()
                &&& forall|j: int|
                    0 <= j < f.len() ==> (#[trigger] v@[j]).id == f[j].id && v@[j].payload@
                        == f[j].payload@
            }
    } else {
        r matches Err(EngineError::NotFound(n)) && n@ == name@
    }
}

/// What counting points yields.
pub open spec fn count_points_post(
    e0: EngineState,
    e1: EngineState,
    name: String,
    r: Result<PointsResponse, EngineError>,
) -> bool {
    &&& e1 == e0
    &&& if has_col(e0.collections@, name@) {
        r matches Ok(PointsResponse::Count(c)) && exists|i: int|
            0 <= i < e0.collections@.len() && (#[trigger] e0.collections@[i]).name@ == name@ && c
                == e0.collections@[i].points@.len()
    } else {
        r matches Err(EngineError::NotFound(n)) && n@ == name@
    }
}

/// What deleting points yields: the points with a listed identifier are
/// removed, in one mutation.
pub open spec fn delete_points_post(
    e0: EngineState,
    e1: EngineState,
    name: String,
    ids: Vec<u64>,
    r: Result<PointsResponse, EngineError>,
) -> bool {
    if has_col(e0.collections@, name@) {
        &&& r == Ok::<PointsResponse, EngineError>(PointsResponse::Delete(completed(e0.op_seq)))
        &&& exists|i: int|
            0 <= i < e0.collections@.len() && (#[trigger] e0.collections@[i]).name@ == name@
                && col_points_updated(
                e0,
                e1,
                i,
                e0.collections@[i].points@.filter(not_sel_ids(ids@)),
            )
    } else {
        &&& e1 == e0
        &&& r matches Err(EngineError::NotFound(n)) && n@ == name@
    }
}

/// What upserting points yields: every input point must fit the
/// collection; each replaces the stored point with its identifier or is
/// appended, in input order.
pub open spec fn upsert_points_post(
    e0: EngineState,
    e1: EngineState,
    name: String,
    pts: Vec<PointRecord>,
    r: Result<PointsResponse, EngineError>,
) -> bool {
    if has_col(e0.collections@, name@) {
        exists|i: int|
            0 <= i < e0.collections@.len() && (#[trigger] e0.collections@[i]).name@ == name@ && if !all_points_ok(
                pts@,
                e0.collections@[i].config.size,
            ) {
                &&& e1 == e0
                &&& r matches Err(EngineError::BadInput(m)) && m@
                    == "point rejected: wrong vector dimension or duplicate payload keys"@
            } else {
                &&& r == Ok::<PointsResponse, EngineError>(
                    PointsResponse::Upsert(completed(e0.op_seq)),
                )
                &&& col_points_updated(e0, e1, i, upsert_all(e0.collections@[i].points@, pts@))
            }
    } else {
        &&& e1 == e0
        &&& r matches Err(EngineError::NotFound(n)) && n@ == name@
    }
}

/// What replacing vectors yields: every replacement must have the
/// collection's dimension; each is applied to the point with its
/// identifier, in input order, and a missing identifier is ignored.
pub open spec fn update_vectors_post(
    e0: EngineState,
    e1: EngineState,
    name: String,
    pvs: Vec<PointVectors>,
    r: Result<PointsResponse, EngineError>,
) -> bool {
    if has_col(e0.collections@, name@) {
        exists|i: int|
            0 <= i < e0.collections@.len() && (#[trigger] e0.collections@[i]).name@ == name@ && if !all_vectors_ok(
                pvs@,
                e0.collections@[i].config.size,
            ) {
                &&& e1 == e0
                &&& r matches Err(EngineError::BadInput(m)) && m@
                    == "vector rejected: wrong dimension"@
            } else {
                &&& r == Ok::<PointsResponse, EngineError>(
                    PointsResponse::UpdateVectors(completed(e0.op_seq)),
                )
                &&& col_points_updated(e0, e1, i, apply_pv_all(e0.collections@[i].points@, pvs@))
            }
    } else {
        &&& e1 == e0
        &&& r matches Err(EngineError::NotFound(n)) && n@ == name@
    }
}

/// What deleting vectors yields.
pub open spec fn delete_vectors_post(
    e0: EngineState,
    e1: EngineState,
    name: String,
    ids: Vec<u64>,
    r: Result<PointsResponse, EngineError>,
) -> bool {
    if has_col(e0.collections@, name@) {
        &&& r == Ok::<PointsResponse, EngineError>(
            PointsResponse::DeleteVectors(completed(e0.op_seq)),
        )
        &&& exists|i: int|
            0 <= i < e0.collections@.len() && (#[trigger] e0.collections@[i]).name@ == name@
                && e1.collections@[i].points@.len() == e0.collections@[i].points@.len()
                && col_points_updated(e0, e1, i, e1.collections@[i].points@) && vectors_cleared(
                e0.collections@[i].points@,
                e1.collections@[i].points@,
                ids@,
            )
    } else {
        &&& e1 == e0
        &&& r matches Err(EngineError::NotFound(n)) && n@ == name@
    }
}

/// What merging payload entries yields: the entries' keys must be
/// pairwise distinct; each listed point has them merged into its payload.
pub open spec fn set_payload_post(
    e0: EngineState,
    e1: EngineState,
    name: String,
    ids: Vec<u64>,
    entries: Vec<PayloadEntry>,
    r: Result<PointsResponse, EngineError>,
) -> bool {
    if has_col(e0.collections@, name@) {
        if !kv_distinct(entries@) {
            &&& e1 == e0
            &&& r matches Err(EngineError::BadInput(m)) && m@ == "duplicate payload keys"@
        } else {
            &&& r == Ok::<PointsResponse, EngineError>(
                PointsResponse::SetPayload(completed(e0.op_seq)),
            )
            &&& exists|i: int|
                0 <= i < e0.collections@.len() && (#[trigger] e0.collections@[i]).name@ == name@
                    && col_points_updated(e0, e1, i, e1.collections@[i].points@) && payload_merged(
                    e0.collections@[i].points@,
                    e1.collections@[i].points@,
                    ids@,
                    entries@,
                )
        }
    } else {
        &&& e1 == e0
        &&& r matches Err(EngineError::NotFound(n)) && n@ == name@
    }
}

/// What overwriting payloads yields: the entries' keys must be pairwise
/// distinct; each listed point's payload becomes exactly the entries.
pub open spec fn overwrite_payload_post(
    e0: EngineState,
    e1: EngineState,
    name: String,
    ids: Vec<u64>,
    entries: Vec<PayloadEntry>,
    r: Result<PointsResponse, EngineError>,
) -> bool {
    if has_col(e0.collections@, name@) {
        if !kv_distinct(entries@) {
            &&& e1 == e0
            &&& r matches Err(EngineError::BadInput(m)) && m@ == "duplicate payload keys"@
        } else {
            &&& r == Ok::<PointsResponse, EngineError>(
                PointsResponse::OverwritePayload(completed(e0.op_seq)),
            )
            &&& exists|i: int|
                0 <= i < e0.collections@.len() && (#[trigger] e0.collections@[i]).name@ == name@
                    && col_points_updated(e0, e1, i, e1.collections@[i].points@)
                    && payload_overwritten(
                    e0.collections@[i].points@,
                    e1.collections@[i].points@,
                    ids@,
                    entries@,
                )
        }
    } else {
        &&& e1 == e0
        &&& r matches Err(EngineError::NotFound(n)) && n@ == name@
    }
}

/// What deleting payload keys yields.
pub open spec fn delete_payload_post(
    e0: EngineState,
    e1: EngineState,
    name: String,
    ids: Vec<u64>,
    keys: Vec<String>,
    r: Result<PointsResponse, EngineError>,
) -> bool {
    if has_col(e0.collections@, name@) {
        &&& r == Ok::<PointsResponse, EngineError>(
            PointsResponse::DeletePayload(completed(e0.op_seq)),
        )
        &&& exists|i: int|
            0 <= i < e0.collections@.len() && (#[trigger] e0.collections@[i]).name@ == name@
                && col_points_updated(e0, e1, i, e1.collections@[i].points@)
                && payload_keys_removed(
                e0.collections@[i].points@,
                e1.collections@[i].points@,
                ids@,
                keys@,
            )
    } else {
        &&& e1 == e0
        &&& r matches Err(EngineError::NotFound(n)) && n@ == name@
    }
}

/// What clearing payloads yields.
pub open spec fn clear_payload_post(
    e0: EngineState,
    e1: EngineState,
    name: String,
    ids: Vec<u64>,
    r: Result<PointsResponse, EngineError>,
) -> bool {
    if has_col(e0.collections@, name@) {
        &&& r == Ok::<PointsResponse, EngineError>(
            PointsResponse::ClearPayload(completed(e0.op_seq)),
        )
        &&& exists|i: int|
            0 <= i < e0.collections@.len() && (#[trigger] e0.collections@[i]).name@ == name@
                && col_points_updated(e0, e1, i, e1.collections@[i].points@) && payload_cleared(
                e0.collections@[i].points@,
                e1.collections@[i].points@,
                ids@,
            )
    } else {
        &&& e1 == e0
        &&& r matches Err(EngineError::NotFound(n)) && n@ == name@
    }
}

/// What scrolling yields: the window of points starting at the offset,
/// at most `limit` long, and the offset of the next page when more
/// points follow.
pub open spec fn scroll_points_post(
    e0: EngineState,
    e1: EngineState,
    name: String,
    q: ScrollQuery,
    r: Result<PointsResponse, EngineError>,
) -> bool {
    &&& e1 == e0
    &&& if has_col(e0.collections@, name@) {
        r matches Ok(PointsResponse::Scroll(sr)) && exists|i: int|
            {
                let pts = e0.collections@[i].points@;
                let n = pts.len() as int;
                let start = if q.offset as int <= n {
                    q.offset as int
                } else {
                    n
                };
                let end = if q.offset as int + q.limit as int <= n {
                    q.offset as int + q.limit as int
                } else {
                    n
                };
                &&& 0 <= i < e0.collections@.len()
                &&& (#[trigger] e0.collections@[i]).name@ == name@
                &&& sr.points@.len() == end - start
                &&& forall|j: int|
                    0 <= j < sr.points@.len() ==> (#[trigger] sr.points@[j]).id == pts[start
                        + j].id && sr.points@[j].payload@ == pts[start + j].payload@
                &&& sr.next_offset == if end < n {
                    Some(end as usize)
                } else {
                    None::<usize>
                }
            }
    } else {
        r matches Err(EngineError::NotFound(n)) && n@ == name@
    }
}

/// What one point request does to the engine and what it replies,
/// variant by variant.
pub open spec fn points_post(
    e0: EngineState,
    e1: EngineState,
    req: PointsRequest,
    r: Result<PointsResponse, EngineError>,
) -> bool {
    match req {
        PointsRequest::Get(name, ids) => get_points_post(e0, e1, name, ids, r),
        PointsRequest::Count(name) => count_points_post(e0, e1, name, r),
        PointsRequest::Delete(name, ids) => delete_points_post(e0, e1, name, ids, r),
        PointsRequest::Upsert(name, pts) => upsert_points_post(e0, e1, name, pts, r),
        PointsRequest::UpdateVectors(name, pvs) => update_vectors_post(e0, e1, name, pvs, r),
        PointsRequest::DeleteVectors(name, ids) => delete_vectors_post(e0, e1, name, ids, r),
        PointsRequest::SetPayload(name, ids, entries) => set_payload_post(
            e0,
            e1,
            name,
            ids,
            entries,
            r,
        ),
        PointsRequest::OverwritePayload(name, ids, entries) => overwrite_payload_post(
            e0,
            e1,
            name,
            ids,
            entries,
            r,
        ),
        PointsRequest::DeletePayload(name, ids, keys) => delete_payload_post(
            e0,
            e1,
            name,
            ids,
            keys,
            r,
        ),
        PointsRequest::ClearPayload(name, ids) => clear_payload_post(e0, e1, name, ids, r),
        PointsRequest::Scroll(name, q) => scroll_points_post(e0, e1, name, q, r),
    }
}

/// The unique index with the given identifier is the one any witness
/// exhibits, while identifiers are distinct.
proof fn lemma_pt_at_unique(s: Seq<PointRecord>, id: u64, k: int)
    requires
        ids_distinct(s),
        0 <= k < s.len(),
        s[k].id == id,
    ensures
        has_pt(s, id),
        pt_at(s, id) == k,
{
    assert(has_pt(s, id));
    let c = pt_at(s, id);
    assert(0 <= c < s.len() && s[c].id == id);
    if c < k {
        assert(s[c].id != s[k].id);
    } else if k < c {
        assert(s[k].id != s[c].id);
    }
}

/// The unique index with the given key is the one any witness exhibits,
/// while keys are distinct.
proof fn lemma_kv_at_unique(s: Seq<PayloadEntry>, key: Seq<char>, k: int)
    requires
        kv_distinct(s),
        0 <= k < s.len(),
        s[k].key@ == key,
    ensures
        kv_has(s, key),
        kv_at(s, key) == k,
{
    assert(kv_has(s, key));
    let c = kv_at(s, key);
    assert(0 <= c < s.len() && s[c].key@ == key);
    if c < k {
        assert(s[c].key@ != s[k].key@);
    } else if k < c {
        assert(s[k].key@ != s[c].key@);
    }
}

/// Report whether the payload's keys are pairwise distinct.
fn payload_keys_distinct(p: &Vec<PayloadEntry>) -> (r: bool)
    ensures
        r == kv_distinct(p@),
{
    let n = p.len();
    let mut i: usize = 0;
    while i < n
        invariant
            n == p@.len(),
            i <= n,
            forall|a: int, b: int| 0 <= a < b < p@.len() && a < i ==> p@[a].key@ != p@[b].key@,
        decreases n - i,
    {
        let mut j: usize = i + 1;
        while j < n
            invariant
                n == p@.len(),
                i < n,
                i < j <= n,
                forall|b: int| i < b < j ==> p@[i as int].key@ != p@[b].key@,
            decreases n - j,
        {
            if p[i].key == p[j].key {
                assert(p@[i as int].key@ == p@[j as int].key@);
                return false;
            }
            j += 1;
        }
        i += 1;
    }
    true
}

/// Find the payload entry with the given key, scanning from the front.
fn find_key(p: &Vec<PayloadEntry>, key: &String) -> (r: Option<usize>)
    ensures
        match r {
            Some(i) => {
                &&& i < p@.len()
                &&& p@[i as int].key@ == key@
                &&& forall|j: int| 0 <= j < i ==> p@[j].key@ != key@
            },
            None => forall|j: int| 0 <= j < p@.len() ==> p@[j].key@ != key@,
        },
        r is Some <==> kv_has(p@, key@),
{
    let n = p.len();
    let mut i: usize = 0;
    while i < n
        invariant
            n == p@.len(),
            i <= n,
            forall|j: int| 0 <= j < i ==> p@[j].key@ != key@,
        decreases n - i,
    {
        if p[i].key == *key {
            return Some(i);
        }
        i += 1;
    }
    None
}

/// Report whether the list of keys contains the given one.
fn keys_contain(keys: &Vec<String>, k: &String) -> (r: bool)
    ensures
        r == str_in(keys@, k@),
{
    let n = keys.len();
    let mut i: usize = 0;
    while i < n
        invariant
            n == keys@.len(),
            i <= n,
            forall|j: int| 0 <= j < i ==> keys@[j]@ != k@,
        decreases n - i,
    {
        if keys[i] == *k {
            assert(keys@[i as int]@ == k@);
            return true;
        }
        i += 1;
    }
    false
}

/// Report whether every input point is acceptable for the dimension.
fn points_all_ok(pts: &Vec<PointRecord>, size: usize) -> (r: bool)
    ensures
        r == all_points_ok(pts@, size),
{
    let n = pts.len();
    let mut i: usize = 0;
    while i < n
        invariant
            n == pts@.len(),
            i <= n,
            forall|j: int| 0 <= j < i ==> point_ok(#[trigger] pts@[j], size),
        decreases n - i,
    {
        if pts[i].vector.len() != size {
            assert(!point_ok(pts@[i as int], size));
            return false;
        }
        if !payload_keys_distinct(&pts[i].payload) {
            assert(!point_ok(pts@[i as int], size));
            return false;
        }
        i += 1;
    }
    true
}

/// Report whether every replacement vector has the dimension.
fn vectors_all_ok(pvs: &Vec<PointVectors>, size: usize) -> (r: bool)
    ensures
        r == all_vectors_ok(pvs@, size),
{
    let n = pvs.len();
    let mut i: usize = 0;
    while i < n
        invariant
            n == pvs@.len(),
            i <= n,
            forall|j: int| 0 <= j < i ==> (#[trigger] pvs@[j]).vector@.len() == size,
        decreases n - i,
    {
        if pvs[i].vector.len() != size {
            return false;
        }
        i += 1;
    }
    true
}

/// Merge the entries into the payload, one after the other.
fn merge_payload(base: Vec<PayloadEntry>, es: &Vec<PayloadEntry>) -> (r: Vec<PayloadEntry>)
    requires
        kv_distinct(base@),
    ensures
        r@ == merge_kv(base@, es@),
        kv_distinct(r@),
{
    let ghost base0 = base@;
    let mut acc = base;
    let m = es.len();
    let mut i: usize = 0;
    proof {
        assert(es@.skip(0int) =~= es@);
    }
    while i < m
        invariant
            m == es@.len(),
            i <= m,
            kv_distinct(acc@),
            merge_kv(acc@, es@.skip(i as int)) == merge_kv(base0, es@),
        decreases m - i,
    {
        let ghost acc0 = acc@;
        let en = PayloadEntry { key: es[i].key.clone(), value: es[i].value.clone() };
        proof {
            assert(en == es@[i as int]);
            assert(es@.skip(i as int).first() == es@[i as int]);
            assert(es@.skip(i as int).drop_first() =~= es@.skip(i as int + 1));
            assert(merge_kv(acc0, es@.skip(i as int)) == merge_kv(
                merge_one(acc0, es@[i as int]),
                es@.skip(i as int).drop_first(),
            ));
        }
        match find_key(&acc, &es[i].key) {
            Some(k) => {
                let _o = acc.remove(k);
                acc.insert(k, en);
                proof {
                    lemma_kv_at_unique(acc0, es@[i as int].key@, k as int);
                    assert(acc@ =~= acc0.update(k as int, es@[i as int]));
                    assert(acc@ == merge_one(acc0, es@[i as int]));
                    assert(acc@[k as int].key@ == acc0[k as int].key@);
                    assert forall|a: int, b: int|
                        0 <= a < b < acc@.len() implies acc@[a].key@ != acc@[b].key@ by {
                        assert(acc@[a].key@ == acc0[a].key@);
                        assert(acc@[b].key@ == acc0[b].key@);
                    }
                }
            },
            None => {
                acc.push(en);
                proof {
                    assert(!kv_has(acc0, es@[i as int].key@));
                    assert(acc@ =~= acc0.push(es@[i as int]));
                    assert(acc@ == merge_one(acc0, es@[i as int]));
                    assert forall|a: int, b: int|
                        0 <= a < b < acc@.len() implies acc@[a].key@ != acc@[b].key@ by {
                        if b < acc0.len() {
                        } else {
                            assert(acc@[b].key@ == es@[i as int].key@);
                            assert(acc0[a].key@ != es@[i as int].key@);
                        }
                    }
                }
            },
        }
        i += 1;
    }
    proof {
        assert(es@.skip(m as int) =~= Seq::<PayloadEntry>::empty());
    }
    acc
}

/// Remove the entries whose key is listed, keeping the others in order.
fn remove_keys(payload: Vec<PayloadEntry>, keys: &Vec<String>) -> (r: Vec<PayloadEntry>)
    ensures
        r@ == payload@.filter(kv_keeps(keys@)),
        kv_distinct(payload@) ==> kv_distinct(r@),
{
    let ghost p0 = payload@;
    let mut src = payload;
    let total = src.len();
    let mut out: Vec<PayloadEntry> = Vec::new();
    let mut i: usize = 0;
    proof {
        reveal_with_fuel(Seq::filter, 2);
        assert(p0.take(0int).filter(kv_keeps(keys@)) =~= Seq::<PayloadEntry>::empty());
    }
    while i < total
        invariant
            total == p0.len(),
            i <= total,
            src@ == p0.skip(i as int),
            out@ == p0.take(i as int).filter(kv_keeps(keys@)),
        decreases total - i,
    {
        let p = src.remove(0);
        proof {
            assert(p0.skip(i as int).first() == p0[i as int]);
            assert(p0.skip(i as int).remove(0) =~= p0.skip(i as int + 1));
            reveal_with_fuel(Seq::filter, 2);
            assert(p0.take(i as int + 1).drop_last() =~= p0.take(i as int));
            assert(p0.take(i as int + 1).last() == p0[i as int]);
        }
        let keep = !keys_contain(keys, &p.key);
        if keep {
            out.push(p);
        }
        i += 1;
    }
    proof {
        assert(p0.take(total as int) =~= p0);
        if kv_distinct(p0) {
            lemma_filter_distinct_keys(p0, kv_keeps(keys@));
        }
    }
    out
}

/// Fetch the points with the listed identifiers.
fn points_get(engine: &mut EngineState, name: String, ids: Vec<u64>) -> (r: Result<
    PointsResponse,
    EngineError,
>)
    requires
        old(engine).wf(),
    ensures
        final(engine).wf(),
        get_points_post(*old(engine), *final(engine), name, ids, r),
{
    match find_collection(&engine.collections, &name) {
        None => Err(EngineError::NotFound(name)),
        Some(ci) => {
            let pts = &engine.collections[ci].points;
            let n = pts.len();
            let mut out: Vec<LocalRecord> = Vec::new();
            let mut i: usize = 0;
            proof {
                reveal_with_fuel(Seq::filter, 2);
                assert(pts@.take(0int).filter(sel_ids(ids@)) =~= Seq::<PointRecord>::empty());
            }
            while i < n
                invariant
                    n == pts@.len(),
                    i <= n,
                    ({
                        let f = pts@.take(i as int).filter(sel_ids(ids@));
                        &&& out@.len() == f.len()
                        &&& forall|t: int|
                            0 <= t < f.len() ==> (#[trigger] out@[t]).id == f[t].id
                                && out@[t].payload@ == f[t].payload@
                    }),
                decreases n - i,
            {
                proof {
                    reveal_with_fuel(Seq::filter, 2);
                    assert(pts@.take(i as int + 1).drop_last() =~= pts@.take(i as int));
                    assert(pts@.take(i as int + 1).last() == pts@[i as int]);
                }
                if ids_contain(&ids, pts[i].id) {
                    out.push(LocalRecord { id: pts[i].id, payload: copy_payload(&pts[i].payload) });
                }
                i += 1;
            }
            proof {
                assert(pts@.take(n as int) =~= pts@);
                assert(engine.collections@[ci as int].name@ == name@);
            }
            Ok(PointsResponse::Get(out))
        },
    }
}

/// Count the points of a collection.
fn points_count(engine: &mut EngineState, name: String) -> (r: Result<
    PointsResponse,
    EngineError,
>)
    requires
        old(engine).wf(),
    ensures
        final(engine).wf(),
        count_points_post(*old(engine), *final(engine), name, r),
{
    match find_collection(&engine.collections, &name) {
        None => Err(EngineError::NotFound(name)),
        Some(ci) => {
            let c = engine.collections[ci].points.len();
            proof {
                assert(engine.collections@[ci as int].name@ == name@);
            }
            Ok(PointsResponse::Count(c))
        },
    }
}

/// Delete the points with the listed identifiers.
fn points_delete(engine: &mut EngineState, name: String, ids: Vec<u64>) -> (r: Result<
    PointsResponse,
    EngineError,
>)
    requires
        old(engine).wf(),
    ensures
        final(engine).wf(),
        delete_points_post(*old(engine), *final(engine), name, ids, r),
{
    match find_collection(&engine.collections, &name) {
        None => Err(EngineError::NotFound(name)),
        Some(ci) => {
            let mut entry = engine.collections.remove(ci);
            let ghost entry0 = entry;
            let ghost pts0 = entry.points@;
            let total = entry.points.len();
            let mut kept: Vec<PointRecord> = Vec::new();
            let mut i: usize = 0;
            proof {
                reveal_with_fuel(Seq::filter, 2);
                assert(pts0.take(0int).filter(not_sel_ids(ids@)) =~= Seq::<PointRecord>::empty());
                assert(entry.points@ =~= pts0.skip(0int));
            }
            while i < total
                invariant
                    total == pts0.len(),
                    i <= total,
                    entry.points@ == pts0.skip(i as int),
                    kept@ == pts0.take(i as int).filter(not_sel_ids(ids@)),
                    entry.name == entry0.name,
                    entry.config == entry0.config,
                decreases total - i,
            {
                let p = entry.points.remove(0);
                proof {
                    assert(pts0.skip(i as int).first() == pts0[i as int]);
                    assert(pts0.skip(i as int).remove(0) =~= pts0.skip(i as int + 1));
                    reveal_with_fuel(Seq::filter, 2);
                    assert(pts0.take(i as int + 1).drop_last() =~= pts0.take(i as int));
                    assert(pts0.take(i as int + 1).last() == pts0[i as int]);
                }
                let keep = !ids_contain(&ids, p.id);
                if keep {
                    kept.push(p);
                }
                i += 1;
            }
            proof {
                assert(pts0.take(total as int) =~= pts0);
            }
            entry.points = kept;
            engine.collections.insert(ci, entry);
            let ur = bump_op(engine);
            proof {
                let e0 = *old(engine);
                assert(entry0 == e0.collections@[ci as int]);
                assert(engine.collections@ =~= e0.collections@.update(
                    ci as int,
                    engine.collections@[ci as int],
                ));
                let newpts = engine.collections@[ci as int].points@;
                lemma_filter_distinct_points(pts0, not_sel_ids(ids@));
                assert forall|k: int| 0 <= k < newpts.len() implies point_wf(
                    #[trigger] newpts[k],
                    engine.collections@[ci as int].config.size,
                ) by {
                    lemma_filter_member(pts0, not_sel_ids(ids@), k);
                    let w = choose|w: int| 0 <= w < pts0.len() && pts0[w] == newpts[k];
                    assert(point_wf(pts0[w], entry0.config.size));
                }
                assert(col_wf(engine.collections@[ci as int]));
                lemma_points_swap_wf(e0, *engine, ci as int);
                assert(e0.collections@[ci as int].name@ == name@);
            }
            Ok(PointsResponse::Delete(ur))
        },
    }
}

/// Insert the given points, replacing stored points with the same
/// identifier.
fn points_upsert(engine: &mut EngineState, name: String, pts: Vec<PointRecord>) -> (r: Result<
    PointsResponse,
    EngineError,
>)
    requires
        old(engine).wf(),
    ensures
        final(engine).wf(),
        upsert_points_post(*old(engine), *final(engine), name, pts, r),
{
    match find_collection(&engine.collections, &name) {
        None => Err(EngineError::NotFound(name)),
        Some(ci) => {
            let size = engine.collections[ci].config.size;
            if !points_all_ok(&pts, size) {
                proof {
                    assert(engine.collections@[ci as int].name@ == name@);
                }
                return Err(
                    EngineError::BadInput(
                        "point rejected: wrong vector dimension or duplicate payload keys".to_owned(),
                    ),
                );
            }
            let ghost pts_snap = pts@;
            let mut entry = engine.collections.remove(ci);
            let ghost entry0 = entry;
            let ghost pts0 = entry.points@;
            let mut input = pts;
            while input.len() > 0
                invariant
                    upsert_all(entry.points@, input@) == upsert_all(pts0, pts_snap),
                    ids_distinct(entry.points@),
                    forall|k: int|
                        0 <= k < entry.points@.len() ==> point_wf(
                            #[trigger] entry.points@[k],
                            size,
                        ),
                    all_points_ok(input@, size),
                    entry.name == entry0.name,
                    entry.config == entry0.config,
                    size == entry0.config.size,
                decreases input@.len(),
            {
                let ghost inp0 = input@;
                let ghost cur = entry.points@;
                let p = input.remove(0);
                proof {
                    assert(p == inp0.first());
                    assert(input@ =~= inp0.drop_first());
                    assert(upsert_all(cur, inp0) == upsert_all(
                        upsert_one(cur, p),
                        inp0.drop_first(),
                    ));
                    assert(point_ok(inp0[0], size));
                    assert forall|k: int| 0 <= k < input@.len() implies point_ok(
                        #[trigger] input@[k],
                        size,
                    ) by {
                        assert(input@[k] == inp0[k + 1]);
                    }
                }
                match find_point(&entry.points, p.id) {
                    Some(k) => {
                        let _o = entry.points.remove(k);
                        entry.points.insert(k, p);
                        proof {
                            lemma_pt_at_unique(cur, p.id, k as int);
                            assert(entry.points@ =~= cur.update(k as int, p));
                            assert(entry.points@ == upsert_one(cur, p));
                            assert forall|a: int, b: int|
                                0 <= a < b < entry.points@.len() implies entry.points@[a].id
                                != entry.points@[b].id by {
                                assert(entry.points@[a].id == cur[a].id);
                                assert(entry.points@[b].id == cur[b].id);
                            }
                        }
                    },
                    None => {
                        entry.points.push(p);
                        proof {
                            assert(!has_pt(cur, p.id));
                            assert(entry.points@ =~= cur.push(p));
                            assert(entry.points@ == upsert_one(cur, p));
                        }
                    },
                }
            }
            proof {
                assert(input@ =~= Seq::<PointRecord>::empty());
                assert(entry.points@ == upsert_all(pts0, pts_snap));
            }
            engine.collections.insert(ci, entry);
            let ur = bump_op(engine);
            proof {
                let e0 = *old(engine);
                assert(entry0 == e0.collections@[ci as int]);
                assert(engine.collections@ =~= e0.collections@.update(
                    ci as int,
                    engine.collections@[ci as int],
                ));
                assert(col_wf(engine.collections@[ci as int]));
                lemma_points_swap_wf(e0, *engine, ci as int);
                assert(e0.collections@[ci as int].name@ == name@);
            }
            Ok(PointsResponse::Upsert(ur))
        },
    }
}

/// Replace the vectors of the listed points, where present.
fn points_update_vectors(engine: &mut EngineState, name: String, pvs: Vec<PointVectors>) -> (r:
    Result<PointsResponse, EngineError>)
    requires
        old(engine).wf(),
    ensures
        final(engine).wf(),
        update_vectors_post(*old(engine), *final(engine), name, pvs, r),
{
    match find_collection(&engine.collections, &name) {
        None => Err(EngineError::NotFound(name)),
        Some(ci) => {
            let size = engine.collections[ci].config.size;
            if !vectors_all_ok(&pvs, size) {
                proof {
                    assert(engine.collections@[ci as int].name@ == name@);
                }
                return Err(EngineError::BadInput("vector rejected: wrong dimension".to_owned()));
            }
            let ghost pvs_snap = pvs@;
            let mut entry = engine.collections.remove(ci);
            let ghost entry0 = entry;
            let ghost pts0 = entry.points@;
            let mut input = pvs;
            while input.len() > 0
                invariant
                    apply_pv_all(entry.points@, input@) == apply_pv_all(pts0, pvs_snap),
                    ids_distinct(entry.points@),
                    forall|k: int|
                        0 <= k < entry.points@.len() ==> point_wf(
                            #[trigger] entry.points@[k],
                            size,
                        ),
                    all_vectors_ok(input@, size),
                    entry.name == entry0.name,
                    entry.config == entry0.config,
                    size == entry0.config.size,
                decreases input@.len(),
            {
                let ghost inp0 = input@;
                let ghost cur = entry.points@;
                let pv = input.remove(0);
                proof {
                    assert(pv == inp0.first());
                    assert(input@ =~= inp0.drop_first());
                    assert(apply_pv_all(cur, inp0) == apply_pv_all(
                        apply_pv_one(cur, pv),
                        inp0.drop_first(),
                    ));
                    assert(inp0[0].vector@.len() == size);
                    assert forall|k: int| 0 <= k < input@.len() implies (#[trigger] input@[k]).vector@.len()
                        == size by {
                        assert(input@[k] == inp0[k + 1]);
                    }
                }
                match find_point(&entry.points, pv.id) {
                    Some(k) => {
                        let q = entry.points.remove(k);
                        let PointVectors { id: pv_id, vector: pv_vector } = pv;
                        let replaced = PointRecord {
                            id: pv_id,
                            vector: pv_vector,
                            payload: q.payload,
                        };
                        entry.points.insert(k, replaced);
                        proof {
                            lemma_pt_at_unique(cur, inp0[0].id, k as int);
                            assert(entry.points@[k as int] == PointRecord {
                                id: inp0[0].id,
                                vector: inp0[0].vector,
                                payload: cur[k as int].payload,
                            });
                            assert(entry.points@ =~= cur.update(
                                k as int,
                                entry.points@[k as int],
                            ));
                            assert(entry.points@ == apply_pv_one(cur, inp0[0]));
                            assert forall|a: int, b: int|
                                0 <= a < b < entry.points@.len() implies entry.points@[a].id
                                != entry.points@[b].id by {
                                assert(entry.points@[a].id == cur[a].id);
                                assert(entry.points@[b].id == cur[b].id);
                            }
                        }
                    },
                    None => {
                        proof {
                            assert(!has_pt(cur, inp0[0].id));
                            assert(apply_pv_one(cur, inp0[0]) == cur);
                        }
                    },
                }
            }
            proof {
                assert(input@ =~= Seq::<PointVectors>::empty());
                assert(entry.points@ == apply_pv_all(pts0, pvs_snap));
            }
            engine.collections.insert(ci, entry);
            let ur = bump_op(engine);
            proof {
                let e0 = *old(engine);
                assert(entry0 == e0.collections@[ci as int]);
                assert(engine.collections@ =~= e0.collections@.update(
                    ci as int,
                    engine.collections@[ci as int],
                ));
                assert(col_wf(engine.collections@[ci as int]));
                lemma_points_swap_wf(e0, *engine, ci as int);
                assert(e0.collections@[ci as int].name@ == name@);
            }
            Ok(PointsResponse::UpdateVectors(ur))
        },
    }
}

/// Delete the vectors of the listed points.
fn points_delete_vectors(engine: &mut EngineState, name: String, ids: Vec<u64>) -> (r: Result<
    PointsResponse,
    EngineError,
>)
    requires
        old(engine).wf(),
    ensures
        final(engine).wf(),
        delete_vectors_post(*old(engine), *final(engine), name, ids, r),
{
    match find_collection(&engine.collections, &name) {
        None => Err(EngineError::NotFound(name)),
        Some(ci) => {
            let mut entry = engine.collections.remove(ci);
            let ghost entry0 = entry;
            let ghost pts0 = entry.points@;
            let n = entry.points.len();
            let mut i: usize = 0;
            while i < n
                invariant
                    n == pts0.len(),
                    i <= n,
                    entry.points@.len() == n,
                    entry.name == entry0.name,
                    entry.config == entry0.config,
                    col_wf(entry0),
                    pts0 == entry0.points@,
                    forall|j: int| i <= j < n ==> #[trigger] entry.points@[j] == pts0[j],
                    forall|j: int|
                        0 <= j < i && ids@.contains(pts0[j].id) ==> (#[trigger] entry.points@[j]).id
                            == pts0[j].id && entry.points@[j].vector@.len() == 0
                            && entry.points@[j].payload == pts0[j].payload,
                    forall|j: int|
                        0 <= j < i && !ids@.contains(pts0[j].id) ==> #[trigger] entry.points@[j]
                            == pts0[j],
                decreases n - i,
            {
                let ghost cur = entry.points@;
                if ids_contain(&ids, entry.points[i].id) {
                    let q = entry.points.remove(i);
                    let PointRecord { id, vector: _discard, payload } = q;
                    entry.points.insert(i, PointRecord { id, vector: Vec::new(), payload });
                    proof {
                        assert(entry.points@ =~= cur.update(i as int, entry.points@[i as int]));
                    }
                }
                i += 1;
            }
            engine.collections.insert(ci, entry);
            let ur = bump_op(engine);
            proof {
                let e0 = *old(engine);
                assert(entry0 == e0.collections@[ci as int]);
                assert(engine.collections@ =~= e0.collections@.update(
                    ci as int,
                    engine.collections@[ci as int],
                ));
                let newpts = engine.collections@[ci as int].points@;
                assert forall|a: int, b: int|
                    0 <= a < b < newpts.len() implies newpts[a].id != newpts[b].id by {
                    assert(newpts[a].id == pts0[a].id);
                    assert(newpts[b].id == pts0[b].id);
                }
                assert forall|k: int| 0 <= k < newpts.len() implies point_wf(
                    #[trigger] newpts[k],
                    entry0.config.size,
                ) by {
                    assert(point_wf(pts0[k], entry0.config.size));
                }
                assert(col_wf(engine.collections@[ci as int]));
                lemma_points_swap_wf(e0, *engine, ci as int);
                assert(e0.collections@[ci as int].name@ == name@);
            }
            Ok(PointsResponse::DeleteVectors(ur))
        },
    }
}

/// Merge the entries into the payloads of the listed points.
fn points_set_payload(
    engine: &mut EngineState,
    name: String,
    ids: Vec<u64>,
    entries: Vec<PayloadEntry>,
) -> (r: Result<PointsResponse, EngineError>)
    requires
        old(engine).wf(),
    ensures
        final(engine).wf(),
        set_payload_post(*old(engine), *final(engine), name, ids, entries, r),
{
    match find_collection(&engine.collections, &name) {
        None => Err(EngineError::NotFound(name)),
        Some(ci) => {
            if !payload_keys_distinct(&entries) {
                return Err(EngineError::BadInput("duplicate payload keys".to_owned()));
            }
            let mut entry = engine.collections.remove(ci);
            let ghost entry0 = entry;
            let ghost pts0 = entry.points@;
            let n = entry.points.len();
            let mut i: usize = 0;
            while i < n
                invariant
                    n == pts0.len(),
                    i <= n,
                    entry.points@.len() == n,
                    entry.name == entry0.name,
                    entry.config == entry0.config,
                    col_wf(entry0),
                    pts0 == entry0.points@,
                    forall|j: int| i <= j < n ==> #[trigger] entry.points@[j] == pts0[j],
                    forall|j: int|
                        0 <= j < i && ids@.contains(pts0[j].id) ==> (#[trigger] entry.points@[j]).id
                            == pts0[j].id && entry.points@[j].vector == pts0[j].vector
                            && entry.points@[j].payload@ == merge_kv(pts0[j].payload@, entries@)
                            && kv_distinct(entry.points@[j].payload@),
                    forall|j: int|
                        0 <= j < i && !ids@.contains(pts0[j].id) ==> #[trigger] entry.points@[j]
                            == pts0[j],
                decreases n - i,
            {
                let ghost cur = entry.points@;
                if ids_contain(&ids, entry.points[i].id) {
                    let q = entry.points.remove(i);
                    let PointRecord { id, vector, payload } = q;
                    proof {
                        assert(point_wf(pts0[i as int], entry0.config.size));
                        assert(kv_distinct(payload@));
                    }
                    let merged = merge_payload(payload, &entries);
                    entry.points.insert(i, PointRecord { id, vector, payload: merged });
                    proof {
                        assert(entry.points@ =~= cur.update(i as int, entry.points@[i as int]));
                    }
                }
                i += 1;
            }
            engine.collections.insert(ci, entry);
            let ur = bump_op(engine);
            proof {
                let e0 = *old(engine);
                assert(entry0 == e0.collections@[ci as int]);
                assert(engine.collections@ =~= e0.collections@.update(
                    ci as int,
                    engine.collections@[ci as int],
                ));
                let newpts = engine.collections@[ci as int].points@;
                assert forall|a: int, b: int|
                    0 <= a < b < newpts.len() implies newpts[a].id != newpts[b].id by {
                    assert(newpts[a].id == pts0[a].id);
                    assert(newpts[b].id == pts0[b].id);
                }
                assert forall|k: int| 0 <= k < newpts.len() implies point_wf(
                    #[trigger] newpts[k],
                    entry0.config.size,
                ) by {
                    assert(point_wf(pts0[k], entry0.config.size));
                }
                assert(col_wf(engine.collections@[ci as int]));
                lemma_points_swap_wf(e0, *engine, ci as int);
                assert(e0.collections@[ci as int].name@ == name@);
            }
            Ok(PointsResponse::SetPayload(ur))
        },
    }
}

/// Replace the payloads of the listed points by the entries.
fn points_overwrite_payload(
    engine: &mut EngineState,
    name: String,
    ids: Vec<u64>,
    entries: Vec<PayloadEntry>,
) -> (r: Result<PointsResponse, EngineError>)
    requires
        old(engine).wf(),
    ensures
        final(engine).wf(),
        overwrite_payload_post(*old(engine), *final(engine), name, ids, entries, r),
{
    match find_collection(&engine.collections, &name) {
        None => Err(EngineError::NotFound(name)),
        Some(ci) => {
            if !payload_keys_distinct(&entries) {
                return Err(EngineError::BadInput("duplicate payload keys".to_owned()));
            }
            let mut entry = engine.collections.remove(ci);
            let ghost entry0 = entry;
            let ghost pts0 = entry.points@;
            let n = entry.points.len();
            let mut i: usize = 0;
            while i < n
                invariant
                    n == pts0.len(),
                    i <= n,
                    entry.points@.len() == n,
                    entry.name == entry0.name,
                    entry.config == entry0.config,
                    col_wf(entry0),
                    pts0 == entry0.points@,
                    kv_distinct(entries@),
                    forall|j: int| i <= j < n ==> #[trigger] entry.points@[j] == pts0[j],
                    forall|j: int|
                        0 <= j < i && ids@.contains(pts0[j].id) ==> (#[trigger] entry.points@[j]).id
                            == pts0[j].id && entry.points@[j].vector == pts0[j].vector
                            && entry.points@[j].payload@ == entries@,
                    forall|j: int|
                        0 <= j < i && !ids@.contains(pts0[j].id) ==> #[trigger] entry.points@[j]
                            == pts0[j],
                decreases n - i,
            {
                let ghost cur = entry.points@;
                if ids_contain(&ids, entry.points[i].id) {
                    let q = entry.points.remove(i);
                    let PointRecord { id, vector, payload: _old_payload } = q;
                    entry.points.insert(
                        i,
                        PointRecord { id, vector, payload: copy_payload(&entries) },
                    );
                    proof {
                        assert(entry.points@ =~= cur.update(i as int, entry.points@[i as int]));
                    }
                }
                i += 1;
            }
            engine.collections.insert(ci, entry);
            let ur = bump_op(engine);
            proof {
                let e0 = *old(engine);
                assert(entry0 == e0.collections@[ci as int]);
                assert(engine.collections@ =~= e0.collections@.update(
                    ci as int,
                    engine.collections@[ci as int],
                ));
                let newpts = engine.collections@[ci as int].points@;
                assert forall|a: int, b: int|
                    0 <= a < b < newpts.len() implies newpts[a].id != newpts[b].id by {
                    assert(newpts[a].id == pts0[a].id);
                    assert(newpts[b].id == pts0[b].id);
                }
                assert forall|k: int| 0 <= k < newpts.len() implies point_wf(
                    #[trigger] newpts[k],
                    entry0.config.size,
                ) by {
                    assert(point_wf(pts0[k], entry0.config.size));
                }
                assert(col_wf(engine.collections@[ci as int]));
                lemma_points_swap_wf(e0, *engine, ci as int);
                assert(e0.collections@[ci as int].name@ == name@);
            }
            Ok(PointsResponse::OverwritePayload(ur))
        },
    }
}

/// Remove the listed keys from the payloads of the listed points.
fn points_delete_payload(
    engine: &mut EngineState,
    name: String,
    ids: Vec<u64>,
    keys: Vec<String>,
) -> (r: Result<PointsResponse, EngineError>)
    requires
        old(engine).wf(),
    ensures
        final(engine).wf(),
        delete_payload_post(*old(engine), *final(engine), name, ids, keys, r),
{
    match find_collection(&engine.collections, &name) {
        None => Err(EngineError::NotFound(name)),
        Some(ci) => {
            let mut entry = engine.collections.remove(ci);
            let ghost entry0 = entry;
            let ghost pts0 = entry.points@;
            let n = entry.points.len();
            let mut i: usize = 0;
            while i < n
                invariant
                    n == pts0.len(),
                    i <= n,
                    entry.points@.len() == n,
                    entry.name == entry0.name,
                    entry.config == entry0.config,
                    col_wf(entry0),
                    pts0 == entry0.points@,
                    forall|j: int| i <= j < n ==> #[trigger] entry.points@[j] == pts0[j],
                    forall|j: int|
                        0 <= j < i && ids@.contains(pts0[j].id) ==> (#[trigger] entry.points@[j]).id
                            == pts0[j].id && entry.points@[j].vector == pts0[j].vector
                            && entry.points@[j].payload@ == pts0[j].payload@.filter(
                            kv_keeps(keys@),
                        ) && kv_distinct(entry.points@[j].payload@),
                    forall|j: int|
                        0 <= j < i && !ids@.contains(pts0[j].id) ==> #[trigger] entry.points@[j]
                            == pts0[j],
                decreases n - i,
            {
                let ghost cur = entry.points@;
                if ids_contain(&ids, entry.points[i].id) {
                    let q = entry.points.remove(i);
                    let PointRecord { id, vector, payload } = q;
                    proof {
                        assert(point_wf(pts0[i as int], entry0.config.size));
                        assert(kv_distinct(payload@));
                    }
                    let trimmed = remove_keys(payload, &keys);
                    entry.points.insert(i, PointRecord { id, vector, payload: trimmed });
                    proof {
                        assert(entry.points@ =~= cur.update(i as int, entry.points@[i as int]));
                    }
                }
                i += 1;
            }
            engine.collections.insert(ci, entry);
            let ur = bump_op(engine);
            proof {
                let e0 = *old(engine);
                assert(entry0 == e0.collections@[ci as int]);
                assert(engine.collections@ =~= e0.collections@.update(
                    ci as int,
                    engine.collections@[ci as int],
                ));
                let newpts = engine.collections@[ci as int].points@;
                assert forall|a: int, b: int|
                    0 <= a < b < newpts.len() implies newpts[a].id != newpts[b].id by {
                    assert(newpts[a].id == pts0[a].id);
                    assert(newpts[b].id == pts0[b].id);
                }
                assert forall|k: int| 0 <= k < newpts.len() implies point_wf(
                    #[trigger] newpts[k],
                    entry0.config.size,
                ) by {
                    assert(point_wf(pts0[k], entry0.config.size));
                }
                assert(col_wf(engine.collections@[ci as int]));
                lemma_points_swap_wf(e0, *engine, ci as int);
                assert(e0.collections@[ci as int].name@ == name@);
            }
            Ok(PointsResponse::DeletePayload(ur))
        },
    }
}

/// Empty the payloads of the listed points.
fn points_clear_payload(engine: &mut EngineState, name: String, ids: Vec<u64>) -> (r: Result<
    PointsResponse,
    EngineError,
>)
    requires
        old(engine).wf(),
    ensures
        final(engine).wf(),
        clear_payload_post(*old(engine), *final(engine), name, ids, r),
{
    match find_collection(&engine.collections, &name) {
        None => Err(EngineError::NotFound(name)),
        Some(ci) => {
            let mut entry = engine.collections.remove(ci);
            let ghost entry0 = entry;
            let ghost pts0 = entry.points@;
            let n = entry.points.len();
            let mut i: usize = 0;
            while i < n
                invariant
                    n == pts0.len(),
                    i <= n,
                    entry.points@.len() == n,
                    entry.name == entry0.name,
                    entry.config == entry0.config,
                    col_wf(entry0),
                    pts0 == entry0.points@,
                    forall|j: int| i <= j < n ==> #[trigger] entry.points@[j] == pts0[j],
                    forall|j: int|
                        0 <= j < i && ids@.contains(pts0[j].id) ==> (#[trigger] entry.points@[j]).id
                            == pts0[j].id && entry.points@[j].vector == pts0[j].vector
                            && entry.points@[j].payload@.len() == 0,
                    forall|j: int|
                        0 <= j < i && !ids@.contains(pts0[j].id) ==> #[trigger] entry.points@[j]
                            == pts0[j],
                decreases n - i,
            {
                let ghost cur = entry.points@;
                if ids_contain(&ids, entry.points[i].id) {
                    let q = entry.points.remove(i);
                    let PointRecord { id, vector, payload: _old_payload } = q;
                    entry.points.insert(i, PointRecord { id, vector, payload: Vec::new() });
                    proof {
                        assert(entry.points@ =~= cur.update(i as int, entry.points@[i as int]));
                    }
                }
                i += 1;
            }
            engine.collections.insert(ci, entry);
            let ur = bump_op(engine);
            proof {
                let e0 = *old(engine);
                assert(entry0 == e0.collections@[ci as int]);
                assert(engine.collections@ =~= e0.collections@.update(
                    ci as int,
                    engine.collections@[ci as int],
                ));
                let newpts = engine.collections@[ci as int].points@;
                assert forall|a: int, b: int|
                    0 <= a < b < newpts.len() implies newpts[a].id != newpts[b].id by {
                    assert(newpts[a].id == pts0[a].id);
                    assert(newpts[b].id == pts0[b].id);
                }
                assert forall|k: int| 0 <= k < newpts.len() implies point_wf(
                    #[trigger] newpts[k],
                    entry0.config.size,
                ) by {
                    assert(point_wf(pts0[k], entry0.config.size));
                }
                assert(col_wf(engine.collections@[ci as int]));
                lemma_points_swap_wf(e0, *engine, ci as int);
                assert(e0.collections@[ci as int].name@ == name@);
            }
            Ok(PointsResponse::ClearPayload(ur))
        },
    }
}

/// Page through a collection's points.
fn points_scroll(engine: &mut EngineState, name: String, q: ScrollQuery) -> (r: Result<
    PointsResponse,
    EngineError,
>)
    requires
        old(engine).wf(),
    ensures
        final(engine).wf(),
        scroll_points_post(*old(engine), *final(engine), name, q, r),
{
    match find_collection(&engine.collections, &name) {
        None => Err(EngineError::NotFound(name)),
        Some(ci) => {
            let pts = &engine.collections[ci].points;
            let n = pts.len();
            let start = if q.offset > n {
                n
            } else {
                q.offset
            };
            let avail = n - start;
            let count = if q.limit > avail {
                avail
            } else {
                q.limit
            };
            let mut out: Vec<LocalRecord> = Vec::new();
            let mut j: usize = 0;
            while j < count
                invariant
                    n == pts@.len(),
                    start + count <= n,
                    j <= count,
                    out@.len() == j,
                    forall|t: int|
                        0 <= t < j ==> (#[trigger] out@[t]).id == pts@[start + t].id
                            && out@[t].payload@ == pts@[start + t].payload@,
                decreases count - j,
            {
                out.push(
                    LocalRecord {
                        id: pts[start + j].id,
                        payload: copy_payload(&pts[start + j].payload),
                    },
                );
                j += 1;
            }
            let next_offset = if start + count < n {
                Some(start + count)
            } else {
                None
            };
            proof {
                assert(engine.collections@[ci as int].name@ == name@);
            }
            Ok(PointsResponse::Scroll(ScrollResult { points: out, next_offset }))
        },
    }
}

/// Execute one point request against the engine.
pub fn handle_points(engine: &mut EngineState, req: PointsRequest) -> (r: Result<
    PointsResponse,
    EngineError,
>)
    requires
        old(engine).wf(),
    ensures
        final(engine).wf(),
        points_post(*old(engine), *final(engine), req, r),
{
    match req {
        PointsRequest::Get(name, ids) => points_get(engine, name, ids),
        PointsRequest::Count(name) => points_count(engine, name),
        PointsRequest::Delete(name, ids) => points_delete(engine, name, ids),
        PointsRequest::Upsert(name, pts) => points_upsert(engine, name, pts),
        PointsRequest::UpdateVectors(name, pvs) => points_update_vectors(engine, name, pvs),
        PointsRequest::DeleteVectors(name, ids) => points_delete_vectors(engine, name, ids),
        PointsRequest::SetPayload(name, ids, entries) => points_set_payload(
            engine,
            name,
            ids,
            entries,
        ),
        PointsRequest::OverwritePayload(name, ids, entries) => points_overwrite_payload(
            engine,
            name,
            ids,
            entries,
        ),
        PointsRequest::DeletePayload(name, ids, keys) => points_delete_payload(
            engine,
            name,
            ids,
            keys,
        ),
        PointsRequest::ClearPayload(name, ids) => points_clear_payload(engine, name, ids),
        PointsRequest::Scroll(name, q) => points_scroll(engine, name, q),
    }
}

/// Advance the engine's operation counter and report the mutation.
fn bump_op(engine: &mut EngineState) -> (r: UpdateResult)
    ensures
        r == completed(old(engine).op_seq),
        final(engine).op_seq == next_seq(old(engine).op_seq),
        final(engine).collections == old(engine).collections,
        final(engine).aliases == old(engine).aliases,
{
    let id = engine.op_seq;
    if engine.op_seq < u64::MAX {
        engine.op_seq = engine.op_seq + 1;
    }
    UpdateResult { operation_id: id, status: UpdateStatus::Completed }
}

} // verus!
