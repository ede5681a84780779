//! The in-memory engine the bridge dispatches to: a list of collections,
//! each holding points, and a list of aliases. Exactly one engine value
//! exists per instance; the worker owns it for the instance's whole life.

use vstd::prelude::*;

use crate::ops::collections::AliasDescription;
use crate::ops::collections::VectorConfig;
use crate::ops::points::PayloadEntry;
use crate::ops::points::PointRecord;

verus! {

/// One collection: a name, its configuration, and its points.
#[derive(Debug)]
pub struct CollectionEntry {
    pub name: String,
    pub config: VectorConfig,
    pub points: Vec<PointRecord>,
}

/// The engine's whole state.
#[derive(Debug)]
pub struct EngineState {
    /// All collections, in creation order, with pairwise distinct names.
    pub collections: Vec<CollectionEntry>,
    /// All aliases, in creation order, with pairwise distinct alias
    /// names, each naming an existing collection.
    pub aliases: Vec<AliasDescription>,
    /// Sequence number assigned to the next mutation.
    pub op_seq: u64,
}

/// The payload's keys are pairwise distinct.
pub open spec fn kv_distinct(s: Seq<PayloadEntry>) -> bool {
    forall|i: int, j: int| 0 <= i < j < s.len() ==> s[i].key@ != s[j].key@
}

/// The point identifiers are pairwise distinct.
pub open spec fn ids_distinct(s: Seq<PointRecord>) -> bool {
    forall|i: int, j: int| 0 <= i < j < s.len() ==> s[i].id != s[j].id
}

/// A stored point is valid for a collection of dimension `size`: its
/// vector has that dimension, or is empty because it was deleted, and
/// its payload keys are distinct.
pub open spec fn point_wf(p: PointRecord, size: usize) -> bool {
    &&& p.vector@.len() == size || p.vector@.len() == 0
    &&& kv_distinct(p.payload@)
}

/// A collection is valid: a positive dimension, distinct point
/// identifiers, and every point valid for its dimension.
pub open spec fn col_wf(c: CollectionEntry) -> bool {
    &&& c.config.size >= 1
    &&& ids_distinct(c.points@)
    &&& forall|i: int| 0 <= i < c.points@.len() ==> point_wf(#[trigger] c.points@[i], c.config.size)
}

/// Some collection carries the given name.
pub open spec fn has_col(cols: Seq<CollectionEntry>, name: Seq<char>) -> bool {
    exists|i: int| 0 <= i < cols.len() && #[trigger] cols[i].name@ == name
}

/// Some alias carries the given name.
pub open spec fn has_alias(aliases: Seq<AliasDescription>, name: Seq<char>) -> bool {
    exists|i: int| 0 <= i < aliases.len() && #[trigger] aliases[i].alias_name@ == name
}

impl EngineState {
    /// The engine's invariant: collection names distinct and valid,
    /// alias names distinct, every alias naming an existing collection.
    pub open spec fn wf(self) -> bool {
        &&& forall|i: int, j: int|
            0 <= i < j < self.collections@.len()
                ==> self.collections@[i].name@ != self.collections@[j].name@
        &&& forall|i: int| 0 <= i < self.collections@.len() ==> col_wf(#[trigger] self.collections@[i])
        &&& forall|i: int, j: int|
            0 <= i < j < self.aliases@.len()
                ==> self.aliases@[i].alias_name@ != self.aliases@[j].alias_name@
        &&& forall|i: int|
            0 <= i < self.aliases@.len()
                ==> has_col(self.collections@, (#[trigger] self.aliases@[i]).collection_name@)
    }

    /// A freshly constructed engine holds no state at all.
    pub fn new() -> (e: EngineState)
        ensures
            e.wf(),
            e.collections@.len() == 0,
            e.aliases@.len() == 0,
            e.op_seq == 0,
    {
        EngineState { collections: Vec::new(), aliases: Vec::new(), op_seq: 0 }
    }
}

/// Find the collection with the given name, scanning from the front.
pub fn find_collection(cols: &Vec<CollectionEntry>, name: &String) -> (r: Option<usize>)
    ensures
        match r {
            Some(i) => {
                &&& i < cols@.len()
                &&& cols@[i as int].name@ == name@
                &&& forall|j: int| 0 <= j < i ==> cols@[j].name@ != name@
            },
            None => forall|j: int| 0 <= j < cols@.len() ==> cols@[j].name@ != name@,
        },
        r is Some <==> has_col(cols@, name@),
{
    let n = cols.len();
    let mut i: usize = 0;
    while i < n
        invariant
            n == cols@.len(),
            i <= n,
            forall|j: int| 0 <= j < i ==> cols@[j].name@ != name@,
        decreases n - i,
    {
        if cols[i].name == *name {
            return Some(i);
        }
        i += 1;
    }
    None
}

/// Find the alias with the given name, scanning from the front.
pub fn find_alias(aliases: &Vec<AliasDescription>, name: &String) -> (r: Option<usize>)
    ensures
        match r {
            Some(i) => {
                &&& i < aliases@.len()
                &&& aliases@[i as int].alias_name@ == name@
                &&& forall|j: int| 0 <= j < i ==> aliases@[j].alias_name@ != name@
            },
            None => forall|j: int| 0 <= j < aliases@.len() ==> aliases@[j].alias_name@ != name@,
        },
        r is Some <==> has_alias(aliases@, name@),
{
    let n = aliases.len();
    let mut i: usize = 0;
    while i < n
        invariant
            n == aliases@.len(),
            i <= n,
            forall|j: int| 0 <= j < i ==> aliases@[j].alias_name@ != name@,
        decreases n - i,
    {
        if aliases[i].alias_name == *name {
            return Some(i);
        }
        i += 1;
    }
    None
}

/// Find the point with the given identifier, scanning from the front.
pub fn find_point(points: &Vec<PointRecord>, id: u64) -> (r: Option<usize>)
    ensures
        match r {
            Some(i) => {
                &&& i < points@.len()
                &&& points@[i as int].id == id
                &&& forall|j: int| 0 <= j < i ==> points@[j].id != id
            },
            None => forall|j: int| 0 <= j < points@.len() ==> points@[j].id != id,
        },
{
    let n = points.len();
    let mut i: usize = 0;
    while i < n
        invariant
            n == points@.len(),
            i <= n,
            forall|j: int| 0 <= j < i ==> points@[j].id != id,
        decreases n - i,
    {
        if points[i].id == id {
            return Some(i);
        }
        i += 1;
    }
    None
}

/// Report whether the slice of identifiers contains the given one.
pub fn ids_contain(ids: &Vec<u64>, id: u64) -> (r: bool)
    ensures
        r == ids@.contains(id),
{
    let n = ids.len();
    let mut i: usize = 0;
    while i < n
        invariant
            n == ids@.len(),
            i <= n,
            forall|j: int| 0 <= j < i ==> ids@[j] != id,
        decreases n - i,
    {
        if ids[i] == id {
            assert(ids@[i as int] == id);
            return true;
        }
        i += 1;
    }
    false
}

/// Every element of a filtered sequence is an element of the original.
pub proof fn lemma_filter_member<A>(s: Seq<A>, pred: spec_fn(A) -> bool, i: int)
    requires
        0 <= i < s.filter(pred).len(),
    ensures
        exists|j: int| 0 <= j < s.len() && s[j] == s.filter(pred)[i],
    decreases s.len(),
{
    reveal(Seq::filter);
    if s.len() == 0 {
    } else {
        let sub = s.drop_last().filter(pred);
        if pred(s.last()) && i == sub.len() {
            assert(s[s.len() - 1] == s.filter(pred)[i]);
        } else {
            lemma_filter_member(s.drop_last(), pred, i);
            let j = choose|j: int| 0 <= j < s.drop_last().len() && s.drop_last()[j] == sub[i];
            assert(s[j] == s.filter(pred)[i]);
        }
    }
}

/// Filtering keeps alias names pairwise distinct.
pub proof fn lemma_filter_distinct_aliases(
    s: Seq<AliasDescription>,
    pred: spec_fn(AliasDescription) -> bool,
)
    requires
        forall|i: int, j: int| 0 <= i < j < s.len() ==> s[i].alias_name@ != s[j].alias_name@,
    ensures
        forall|i: int, j: int|
            0 <= i < j < s.filter(pred).len() ==> s.filter(pred)[i].alias_name@ != s.filter(
                pred,
            )[j].alias_name@,
    decreases s.len(),
{
    reveal(Seq::filter);
    if s.len() == 0 {
    } else {
        let sub = s.drop_last();
        lemma_filter_distinct_aliases(sub, pred);
        let f = s.filter(pred);
        let fsub = sub.filter(pred);
        if pred(s.last()) {
            assert forall|i: int, j: int| 0 <= i < j < f.len() implies f[i].alias_name@
                != f[j].alias_name@ by {
                if j < fsub.len() {
                    assert(f[i] == fsub[i]);
                    assert(f[j] == fsub[j]);
                } else {
                    assert(f[i] == fsub[i]);
                    lemma_filter_member(sub, pred, i);
                    let k = choose|k: int| 0 <= k < sub.len() && sub[k] == fsub[i];
                    assert(s[k] == fsub[i]);
                    assert(s[k].alias_name@ != s[s.len() - 1].alias_name@);
                }
            }
        }
    }
}

/// Filtering keeps point identifiers pairwise distinct.
pub proof fn lemma_filter_distinct_points(s: Seq<PointRecord>, pred: spec_fn(PointRecord) -> bool)
    requires
        ids_distinct(s),
    ensures
        ids_distinct(s.filter(pred)),
    decreases s.len(),
{
    reveal(Seq::filter);
    if s.len() == 0 {
    } else {
        let sub = s.drop_last();
        lemma_filter_distinct_points(sub, pred);
        let f = s.filter(pred);
        let fsub = sub.filter(pred);
        if pred(s.last()) {
            assert forall|i: int, j: int| 0 <= i < j < f.len() implies f[i].id != f[j].id by {
                if j < fsub.len() {
                    assert(f[i] == fsub[i]);
                    assert(f[j] == fsub[j]);
                } else {
                    assert(f[i] == fsub[i]);
                    lemma_filter_member(sub, pred, i);
                    let k = choose|k: int| 0 <= k < sub.len() && sub[k] == fsub[i];
                    assert(s[k] == fsub[i]);
                    assert(s[k].id != s[s.len() - 1].id);
                }
            }
        }
    }
}

/// Filtering keeps payload keys pairwise distinct.
pub proof fn lemma_filter_distinct_keys(s: Seq<PayloadEntry>, pred: spec_fn(PayloadEntry) -> bool)
    requires
        kv_distinct(s),
    ensures
        kv_distinct(s.filter(pred)),
    decreases s.len(),
{
    reveal(Seq::filter);
    if s.len() == 0 {
    } else {
        let sub = s.drop_last();
        lemma_filter_distinct_keys(sub, pred);
        let f = s.filter(pred);
        let fsub = sub.filter(pred);
        if pred(s.last()) {
            assert forall|i: int, j: int| 0 <= i < j < f.len() implies f[i].key@ != f[j].key@ by {
                if j < fsub.len() {
                    assert(f[i] == fsub[i]);
                    assert(f[j] == fsub[j]);
                } else {
                    assert(f[i] == fsub[i]);
                    lemma_filter_member(sub, pred, i);
                    let k = choose|k: int| 0 <= k < sub.len() && sub[k] == fsub[i];
                    assert(s[k] == fsub[i]);
                    assert(s[k].key@ != s[s.len() - 1].key@);
                }
            }
        }
    }
}

/// The engine stays well-formed when exactly the points of one
/// collection change and the new points are themselves well-formed.
pub proof fn lemma_points_swap_wf(e0: EngineState, e1: EngineState, i: int)
    requires
        e0.wf(),
        0 <= i < e0.collections@.len(),
        e1.collections@.len() == e0.collections@.len(),
        forall|j: int|
            0 <= j < e0.collections@.len() && j != i ==> e1.collections@[j] == e0.collections@[j],
        e1.collections@[i].name == e0.collections@[i].name,
        e1.collections@[i].config == e0.collections@[i].config,
        col_wf(e1.collections@[i]),
        e1.aliases == e0.aliases,
    ensures
        e1.wf(),
{
    assert forall|a: int, b: int|
        0 <= a < b < e1.collections@.len() implies e1.collections@[a].name@
        != e1.collections@[b].name@ by {
        assert(e1.collections@[a].name@ == e0.collections@[a].name@);
        assert(e1.collections@[b].name@ == e0.collections@[b].name@);
    }
    assert forall|j: int| 0 <= j < e1.collections@.len() implies col_wf(
        #[trigger] e1.collections@[j],
    ) by {
        if j != i {
            assert(e1.collections@[j] == e0.collections@[j]);
        }
    }
    assert forall|t: int| 0 <= t < e1.aliases@.len() implies has_col(
        e1.collections@,
        (#[trigger] e1.aliases@[t]).collection_name@,
    ) by {
        let target = e1.aliases@[t].collection_name@;
        assert(has_col(e0.collections@, target));
        let w = choose|w: int| 0 <= w < e0.collections@.len() && #[trigger] e0.collections@[w].name@
            == target;
        assert(e1.collections@[w].name@ == target);
    }
}

/// A collection name stays present when another entry is appended.
pub proof fn lemma_has_col_push(cols: Seq<CollectionEntry>, e: CollectionEntry, name: Seq<char>)
    requires
        has_col(cols, name),
    ensures
        has_col(cols.push(e), name),
{
    let i = choose|i: int| 0 <= i < cols.len() && #[trigger] cols[i].name@ == name;
    assert(cols.push(e)[i].name@ == name);
}

/// A collection name other than the removed one stays present.
pub proof fn lemma_has_col_remove(cols: Seq<CollectionEntry>, k: int, name: Seq<char>)
    requires
        0 <= k < cols.len(),
        has_col(cols, name),
        cols[k].name@ != name,
    ensures
        has_col(cols.remove(k), name),
{
    let i = choose|i: int| 0 <= i < cols.len() && #[trigger] cols[i].name@ == name;
    if i < k {
        assert(cols.remove(k)[i].name@ == name);
    } else {
        assert(cols.remove(k)[i - 1].name@ == name);
    }
}

/// A collection name stays present when one entry is replaced by an
/// entry with the same name.
pub proof fn lemma_has_col_update(cols: Seq<CollectionEntry>, k: int, e: CollectionEntry, name: Seq<char>)
    requires
        0 <= k < cols.len(),
        e.name@ == cols[k].name@,
        has_col(cols, name),
    ensures
        has_col(cols.update(k, e), name),
{
    let i = choose|i: int| 0 <= i < cols.len() && #[trigger] cols[i].name@ == name;
    if i == k {
        assert(cols.update(k, e)[k].name@ == name);
    } else {
        assert(cols.update(k, e)[i].name@ == name);
    }
}

/// Copy a payload, entry by entry.
pub fn copy_payload(p: &Vec<PayloadEntry>) -> (r: Vec<PayloadEntry>)
    ensures
        r@ == p@,
{
    let n = p.len();
    let mut r: Vec<PayloadEntry> = Vec::new();
    let mut i: usize = 0;
    while i < n
        invariant
            n == p@.len(),
            i <= n,
            r@ == p@.take(i as int),
        decreases n - i,
    {
        r.push(PayloadEntry { key: p[i].key.clone(), value: p[i].value.clone() });
        assert(r@.last() == p@[i as int]);
        assert(r@ == p@.take(i + 1 as int));
        i += 1;
    }
    assert(p@.take(n as int) == p@);
    r
}

} // verus!
