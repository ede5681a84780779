//! Collection and alias administration: request and response shapes.

use vstd::prelude::*;

use crate::engine::has_alias;
use crate::engine::has_col;
use crate::engine::col_wf;
use crate::engine::find_alias;
use crate::engine::find_collection;
use crate::engine::lemma_filter_distinct_aliases;
use crate::engine::lemma_filter_member;
use crate::engine::lemma_has_col_push;
use crate::engine::lemma_has_col_remove;
use crate::engine::lemma_has_col_update;
use crate::engine::CollectionEntry;
use crate::engine::EngineState;
use crate::error::EngineError;
use crate::ops::ColName;

verus! {

/// The distance function a collection scores vectors with.
#[derive(Clone, Copy, Debug, PartialEq, Eq, Structural)]
pub enum Distance {
    Cosine,
    Euclid,
    Dot,
    Manhattan,
}

/// The vector configuration a collection is created with.
#[derive(Clone, Copy, Debug, PartialEq, Eq, Structural)]
pub struct VectorConfig {
    /// Dimension of every stored vector. Must be at least one.
    pub size: usize,
    /// Distance function used when scoring.
    pub distance: Distance,
    /// Whether vectors are kept on disk rather than in memory.
    pub on_disk: bool,
}

/// The mutable part of a collection's configuration.
#[derive(Clone, Copy, Debug, PartialEq, Eq, Structural)]
pub struct UpdateCollection {
    /// When present, replaces the collection's on-disk flag.
    pub on_disk: Option<bool>,
}

/// A snapshot of one collection, as reported to callers.
#[derive(Clone, Copy, Debug, PartialEq, Eq, Structural)]
pub struct CollectionInfo {
    /// Number of points currently stored.
    pub points_count: usize,
    /// The collection's vector configuration.
    pub config: VectorConfig,
}

/// One alias entry: an alternative name for a collection.
#[derive(Debug)]
pub struct AliasDescription {
    pub collection_name: String,
    pub alias_name: String,
}

/// Collection administration requests.
#[derive(Debug)]
pub enum CollectionRequest {
    /// List the names of all collections.
    List,
    /// Get the info of the collection with the given name.
    Get(ColName),
    /// Create a collection with the given name and configuration.
    Create(ColName, VectorConfig),
    /// Update the configuration of the collection with the given name.
    Update(ColName, UpdateCollection),
    /// Delete the collection with the given name.
    Delete(ColName),
    /// Report whether a collection with the given name exists.
    Exists(ColName),
}

/// Alias administration requests.
#[derive(Debug)]
pub enum AliasRequest {
    /// List all aliases.
    List,
    /// List the aliases of the given collection.
    Get(ColName),
    /// Create an alias (collection name, alias name).
    Create(ColName, String),
    /// Delete the alias with the given name.
    Delete(String),
    /// Rename an alias (old name, new name).
    Rename(String, String),
}

/// Responses to collection administration requests.
#[derive(Debug)]
pub enum CollectionResponse {
    /// The names of all collections, in creation order.
    List(Vec<String>),
    /// The info of the requested collection.
    Get(CollectionInfo),
    /// Creation status.
    Create(bool),
    /// Update status.
    Update(bool),
    /// Deletion status: whether the collection existed.
    Delete(bool),
    /// Whether the collection exists.
    Exists(bool),
}

/// Responses to alias administration requests.
#[derive(Debug)]
pub enum AliasResponse {
    /// All aliases.
    List(Vec<AliasDescription>),
    /// The aliases of one collection.
    Get(Vec<AliasDescription>),
    /// Creation status.
    Create(bool),
    /// Deletion status.
    Delete(bool),
    /// Rename status.
    Rename(bool),
}

/// Keeps an alias that does not belong to the named collection.
pub open spec fn keeps_other(name: Seq<char>) -> spec_fn(AliasDescription) -> bool {
    |a: AliasDescription| a.collection_name@ != name
}

/// Keeps an alias that belongs to the named collection.
pub open spec fn of_collection(name: Seq<char>) -> spec_fn(AliasDescription) -> bool {
    |a: AliasDescription| a.collection_name@ == name
}

/// What listing collections yields: the engine is untouched and the
/// reply lists every collection name, in creation order.
pub open spec fn list_collections_post(
    e0: EngineState,
    e1: EngineState,
    r: Result<CollectionResponse, EngineError>,
) -> bool {
    &&& e1 == e0
    &&& r matches Ok(CollectionResponse::List(names)) && names@.len() == e0.collections@.len()
        && forall|i: int|
        0 <= i < names@.len() ==> (#[trigger] names@[i])@ == e0.collections@[i].name@
}

/// What getting a collection yields: its info when it exists, the
/// not-found error otherwise; the engine is untouched either way.
pub open spec fn get_collection_post(
    e0: EngineState,
    e1: EngineState,
    name: String,
    r: Result<CollectionResponse, EngineError>,
) -> bool {
    &&& e1 == e0
    &&& if has_col(e0.collections@, name@) {
        r matches Ok(CollectionResponse::Get(info)) && exists|i: int|
            0 <= i < e0.collections@.len() && (#[trigger] e0.collections@[i]).name@ == name@
                && info.points_count == e0.collections@[i].points@.len()
                && info.config == e0.collections@[i].config
    } else {
        r matches Err(EngineError::NotFound(n)) && n@ == name@
    }
}

/// What creating a collection yields: a zero vector size is rejected, a
/// taken name reports a conflict, and otherwise exactly one empty
/// collection with the given name and configuration is appended.
pub open spec fn create_collection_post(
    e0: EngineState,
    e1: EngineState,
    name: String,
    config: VectorConfig,
    r: Result<CollectionResponse, EngineError>,
) -> bool {
    if config.size == 0 {
        &&& e1 == e0
        &&& r matches Err(EngineError::BadInput(m)) && m@ == "vector size must be at least one"@
    } else if has_col(e0.collections@, name@) {
        &&& e1 == e0
        &&& r matches Err(EngineError::AlreadyExists(n)) && n@ == name@
    } else {
        &&& r == Ok::<CollectionResponse, EngineError>(CollectionResponse::Create(true))
        &&& e1.aliases == e0.aliases
        &&& e1.op_seq == e0.op_seq
        &&& e1.collections@.len() == e0.collections@.len() + 1
        &&& e1.collections@.take(e0.collections@.len() as int) == e0.collections@
        &&& e1.collections@.last().name == name
        &&& e1.collections@.last().config == config
        &&& e1.collections@.last().points@.len() == 0
    }
}

/// What updating a collection yields: when it exists, exactly its
/// on-disk flag is replaced (when the update carries one); otherwise the
/// not-found error.
pub open spec fn update_collection_post(
    e0: EngineState,
    e1: EngineState,
    name: String,
    upd: UpdateCollection,
    r: Result<CollectionResponse, EngineError>,
) -> bool {
    if has_col(e0.collections@, name@) {
        &&& r == Ok::<CollectionResponse, EngineError>(CollectionResponse::Update(true))
        &&& e1.aliases == e0.aliases
        &&& e1.op_seq == e0.op_seq
        &&& exists|i: int|
            0 <= i < e0.collections@.len() && (#[trigger] e0.collections@[i]).name@ == name@
                && e1.collections@ == e0.collections@.update(
                i,
                CollectionEntry {
                    name: e0.collections@[i].name,
                    config: VectorConfig {
                        size: e0.collections@[i].config.size,
                        distance: e0.collections@[i].config.distance,
                        on_disk: match upd.on_disk {
                            Some(b) => b,
                            None => e0.collections@[i].config.on_disk,
                        },
                    },
                    points: e0.collections@[i].points,
                },
            )
    } else {
        &&& e1 == e0
        &&& r matches Err(EngineError::NotFound(n)) && n@ == name@
    }
}

/// What deleting a collection yields: when it exists it is removed
/// together with every alias that named it, and the reply reports that
/// it existed; otherwise nothing changes and the reply reports absence.
pub open spec fn delete_collection_post(
    e0: EngineState,
    e1: EngineState,
    name: String,
    r: Result<CollectionResponse, EngineError>,
) -> bool {
    if has_col(e0.collections@, name@) {
        &&& r == Ok::<CollectionResponse, EngineError>(CollectionResponse::Delete(true))
        &&& e1.op_seq == e0.op_seq
        &&& exists|i: int|
            0 <= i < e0.collections@.len() && (#[trigger] e0.collections@[i]).name@ == name@
                && e1.collections@ == e0.collections@.remove(i)
        &&& e1.aliases@ == e0.aliases@.filter(keeps_other(name@))
    } else {
        &&& e1 == e0
        &&& r == Ok::<CollectionResponse, EngineError>(CollectionResponse::Delete(false))
    }
}

/// What the existence check yields: the engine is untouched and the
/// reply says exactly whether a collection with the name exists.
pub open spec fn collection_exists_post(
    e0: EngineState,
    e1: EngineState,
    name: String,
    r: Result<CollectionResponse, EngineError>,
) -> bool {
    &&& e1 == e0
    &&& r == Ok::<CollectionResponse, EngineError>(CollectionResponse::Exists(has_col(e0.collections@, name@)))
}

/// What one collection administration request does to the engine and
/// what it replies, variant by variant.
pub open spec fn collection_post(
    e0: EngineState,
    e1: EngineState,
    req: CollectionRequest,
    r: Result<CollectionResponse, EngineError>,
) -> bool {
    match req {
        CollectionRequest::List => list_collections_post(e0, e1, r),
        CollectionRequest::Get(name) => get_collection_post(e0, e1, name, r),
        CollectionRequest::Create(name, config) => create_collection_post(e0, e1, name, config, r),
        CollectionRequest::Update(name, upd) => update_collection_post(e0, e1, name, upd, r),
        CollectionRequest::Delete(name) => delete_collection_post(e0, e1, name, r),
        CollectionRequest::Exists(name) => collection_exists_post(e0, e1, name, r),
    }
}

/// What listing aliases yields.
pub open spec fn list_aliases_post(
    e0: EngineState,
    e1: EngineState,
    r: Result<AliasResponse, EngineError>,
) -> bool {
    &&& e1 == e0
    &&& r matches Ok(AliasResponse::List(v)) && v@.len() == e0.aliases@.len() && forall|i: int|
        0 <= i < v@.len() ==> (#[trigger] v@[i]).collection_name@ == e0.aliases@[i].collection_name@
            && v@[i].alias_name@ == e0.aliases@[i].alias_name@
}

/// What listing one collection's aliases yields: exactly the aliases
/// naming it, in creation order, when the collection exists.
pub open spec fn get_aliases_post(
    e0: EngineState,
    e1: EngineState,
    name: String,
    r: Result<AliasResponse, EngineError>,
) -> bool {
    &&& e1 == e0
    &&& if has_col(e0.collections@, name@) {
        r matches Ok(AliasResponse::Get(v)) && v@ == e0.aliases@.filter(of_collection(name@))
    } else {
        r matches Err(EngineError::NotFound(n)) && n@ == name@
    }
}

/// What creating an alias yields: the collection must exist, the alias
/// name must be free, and exactly one alias entry is appended.
pub open spec fn create_alias_post(
    e0: EngineState,
    e1: EngineState,
    collection_name: String,
    alias_name: String,
    r: Result<AliasResponse, EngineError>,
) -> bool {
    if !has_col(e0.collections@, collection_name@) {
        &&& e1 == e0
        &&& r matches Err(EngineError::NotFound(n)) && n@ == collection_name@
    } else if has_alias(e0.aliases@, alias_name@) {
        &&& e1 == e0
        &&& r matches Err(EngineError::AlreadyExists(n)) && n@ == alias_name@
    } else {
        &&& r == Ok::<AliasResponse, EngineError>(AliasResponse::Create(true))
        &&& e1.collections == e0.collections
        &&& e1.op_seq == e0.op_seq
        &&& e1.aliases@ == e0.aliases@.push(AliasDescription { collection_name, alias_name })
    }
}

/// What deleting an alias yields: the entry with that alias name is
/// removed when present, and the not-found error is reported otherwise.
pub open spec fn delete_alias_post(
    e0: EngineState,
    e1: EngineState,
    alias_name: String,
    r: Result<AliasResponse, EngineError>,
) -> bool {
    if has_alias(e0.aliases@, alias_name@) {
        &&& r == Ok::<AliasResponse, EngineError>(AliasResponse::Delete(true))
        &&& e1.collections == e0.collections
        &&& e1.op_seq == e0.op_seq
        &&& exists|i: int|
            0 <= i < e0.aliases@.len() && (#[trigger] e0.aliases@[i]).alias_name@ == alias_name@
                && e1.aliases@ == e0.aliases@.remove(i)
    } else {
        &&& e1 == e0
        &&& r matches Err(EngineError::NotFound(n)) && n@ == alias_name@
    }
}

/// What renaming an alias yields: the old name must exist, the new name
/// must be free, and exactly that entry's alias name is replaced.
pub open spec fn rename_alias_post(
    e0: EngineState,
    e1: EngineState,
    old_name: String,
    new_name: String,
    r: Result<AliasResponse, EngineError>,
) -> bool {
    if !has_alias(e0.aliases@, old_name@) {
        &&& e1 == e0
        &&& r matches Err(EngineError::NotFound(n)) && n@ == old_name@
    } else if has_alias(e0.aliases@, new_name@) {
        &&& e1 == e0
        &&& r matches Err(EngineError::AlreadyExists(n)) && n@ == new_name@
    } else {
        &&& r == Ok::<AliasResponse, EngineError>(AliasResponse::Rename(true))
        &&& e1.collections == e0.collections
        &&& e1.op_seq == e0.op_seq
        &&& exists|i: int|
            0 <= i < e0.aliases@.len() && (#[trigger] e0.aliases@[i]).alias_name@ == old_name@
                && e1.aliases@ == e0.aliases@.update(
                i,
                AliasDescription {
                    collection_name: e0.aliases@[i].collection_name,
                    alias_name: new_name,
                },
            )
    }
}

/// What one alias administration request does to the engine and what it
/// replies, variant by variant.
pub open spec fn alias_post(
    e0: EngineState,
    e1: EngineState,
    req: AliasRequest,
    r: Result<AliasResponse, EngineError>,
) -> bool {
    match req {
        AliasRequest::List => list_aliases_post(e0, e1, r),
        AliasRequest::Get(name) => get_aliases_post(e0, e1, name, r),
        AliasRequest::Create(collection_name, alias_name) => create_alias_post(
            e0,
            e1,
            collection_name,
            alias_name,
            r,
        ),
        AliasRequest::Delete(alias_name) => delete_alias_post(e0, e1, alias_name, r),
        AliasRequest::Rename(old_name, new_name) => rename_alias_post(
            e0,
            e1,
            old_name,
            new_name,
            r,
        ),
    }
}

/// Copy the aliases that do not belong to the named collection.
fn retain_other_collection(aliases: &Vec<AliasDescription>, name: &String) -> (r: Vec<
    AliasDescription,
>)
    ensures
        r@ == aliases@.filter(keeps_other(name@)),
{
    let n = aliases.len();
    let mut out: Vec<AliasDescription> = Vec::new();
    let mut i: usize = 0;
    proof {
        reveal_with_fuel(Seq::filter, 2);
        assert(aliases@.take(0int).filter(keeps_other(name@)) =~= Seq::<AliasDescription>::empty());
    }
    while i < n
        invariant
            n == aliases@.len(),
            i <= n,
            out@ == aliases@.take(i as int).filter(keeps_other(name@)),
        decreases n - i,
    {
        proof {
            reveal_with_fuel(Seq::filter, 2);
            assert(aliases@.take(i + 1 as int).drop_last() =~= aliases@.take(i as int));
            assert(aliases@.take(i + 1 as int).last() == aliases@[i as int]);
        }
        if !(aliases[i].collection_name == *name) {
            out.push(
                AliasDescription {
                    collection_name: aliases[i].collection_name.clone(),
                    alias_name: aliases[i].alias_name.clone(),
                },
            );
        }
        i += 1;
    }
    proof {
        assert(aliases@.take(n as int) =~= aliases@);
    }
    out
}

/// Copy the aliases that belong to the named collection.
fn aliases_of_collection(aliases: &Vec<AliasDescription>, name: &String) -> (r: Vec<
    AliasDescription,
>)
    ensures
        r@ == aliases@.filter(of_collection(name@)),
{
    let n = aliases.len();
    let mut out: Vec<AliasDescription> = Vec::new();
    let mut i: usize = 0;
    proof {
        reveal_with_fuel(Seq::filter, 2);
        assert(aliases@.take(0int).filter(of_collection(name@)) =~= Seq::<AliasDescription>::empty());
    }
    while i < n
        invariant
            n == aliases@.len(),
            i <= n,
            out@ == aliases@.take(i as int).filter(of_collection(name@)),
        decreases n - i,
    {
        proof {
            reveal_with_fuel(Seq::filter, 2);
            assert(aliases@.take(i + 1 as int).drop_last() =~= aliases@.take(i as int));
            assert(aliases@.take(i + 1 as int).last() == aliases@[i as int]);
        }
        if aliases[i].collection_name == *name {
            out.push(
                AliasDescription {
                    collection_name: aliases[i].collection_name.clone(),
                    alias_name: aliases[i].alias_name.clone(),
                },
            );
        }
        i += 1;
    }
    proof {
        assert(aliases@.take(n as int) =~= aliases@);
    }
    out
}

/// Execute one collection administration request against the engine.
pub fn handle_collection(engine: &mut EngineState, req: CollectionRequest) -> (r: Result<
    CollectionResponse,
    EngineError,
>)
    requires
        old(engine).wf(),
    ensures
        final(engine).wf(),
        collection_post(*old(engine), *final(engine), req, r),
{
    match req {
        CollectionRequest::List => {
            let n = engine.collections.len();
            let mut names: Vec<String> = Vec::new();
            let mut i: usize = 0;
            while i < n
                invariant
                    *engine == *old(engine),
                    n == engine.collections@.len(),
                    i <= n,
                    names@.len() == i,
                    forall|j: int|
                        0 <= j < i ==> (#[trigger] names@[j])@ == engine.collections@[j].name@,
                decreases n - i,
            {
                names.push(engine.collections[i].name.clone());
                i += 1;
            }
            Ok(CollectionResponse::List(names))
        },
        CollectionRequest::Get(name) => {
            match find_collection(&engine.collections, &name) {
                Some(i) => {
                    let info = CollectionInfo {
                        points_count: engine.collections[i].points.len(),
                        config: engine.collections[i].config,
                    };
                    Ok(CollectionResponse::Get(info))
                },
                None => Err(EngineError::NotFound(name)),
            }
        },
        CollectionRequest::Create(name, config) => {
            if config.size == 0 {
                return Err(EngineError::BadInput("vector size must be at least one".to_owned()));
            }
            match find_collection(&engine.collections, &name) {
                Some(_) => Err(EngineError::AlreadyExists(name)),
                None => {
                    let entry = CollectionEntry { name, config, points: Vec::new() };
                    engine.collections.push(entry);
                    proof {
                        let cols0 = old(engine).collections@;
                        let cols1 = engine.collections@;
                        assert(cols1.take(cols0.len() as int) =~= cols0);
                        assert(col_wf(cols1.last()));
                        assert forall|t: int|
                            0 <= t < engine.aliases@.len() implies has_col(
                            cols1,
                            (#[trigger] engine.aliases@[t]).collection_name@,
                        ) by {
                            lemma_has_col_push(
                                cols0,
                                cols1.last(),
                                engine.aliases@[t].collection_name@,
                            );
                        }
                    }
                    Ok(CollectionResponse::Create(true))
                },
            }
        },
        CollectionRequest::Update(name, upd) => {
            match find_collection(&engine.collections, &name) {
                None => Err(EngineError::NotFound(name)),
                Some(i) => {
                    let mut entry = engine.collections.remove(i);
                    let flag = match upd.on_disk {
                        Some(b) => b,
                        None => entry.config.on_disk,
                    };
                    entry.config.on_disk = flag;
                    engine.collections.insert(i, entry);
                    proof {
                        let cols0 = old(engine).collections@;
                        let cols1 = engine.collections@;
                        let target = CollectionEntry {
                            name: cols0[i as int].name,
                            config: VectorConfig {
                                size: cols0[i as int].config.size,
                                distance: cols0[i as int].config.distance,
                                on_disk: match upd.on_disk {
                                    Some(b) => b,
                                    None => cols0[i as int].config.on_disk,
                                },
                            },
                            points: cols0[i as int].points,
                        };
                        assert(cols1 =~= cols0.update(i as int, target));
                        assert forall|t: int|
                            0 <= t < engine.aliases@.len() implies has_col(
                            cols1,
                            (#[trigger] engine.aliases@[t]).collection_name@,
                        ) by {
                            lemma_has_col_update(
                                cols0,
                                i as int,
                                target,
                                engine.aliases@[t].collection_name@,
                            );
                        }
                    }
                    Ok(CollectionResponse::Update(true))
                },
            }
        },
        CollectionRequest::Delete(name) => {
            match find_collection(&engine.collections, &name) {
                None => Ok(CollectionResponse::Delete(false)),
                Some(i) => {
                    let _removed = engine.collections.remove(i);
                    let kept = retain_other_collection(&engine.aliases, &name);
                    engine.aliases = kept;
                    proof {
                        let cols0 = old(engine).collections@;
                        let cols1 = engine.collections@;
                        let aliases0 = old(engine).aliases@;
                        let pred = keeps_other(name@);
                        assert forall|t: int|
                            0 <= t < engine.aliases@.len() implies has_col(
                            cols1,
                            (#[trigger] engine.aliases@[t]).collection_name@,
                        ) by {
                            aliases0.lemma_filter_pred(pred, t);
                            lemma_filter_member(aliases0, pred, t);
                            let j = choose|j: int|
                                0 <= j < aliases0.len() && aliases0[j] == aliases0.filter(pred)[t];
                            assert(has_col(cols0, aliases0[j].collection_name@));
                            lemma_has_col_remove(
                                cols0,
                                i as int,
                                engine.aliases@[t].collection_name@,
                            );
                        }
                        lemma_filter_distinct_aliases(aliases0, pred);
                    }
                    Ok(CollectionResponse::Delete(true))
                },
            }
        },
        CollectionRequest::Exists(name) => {
            let found = find_collection(&engine.collections, &name);
            Ok(CollectionResponse::Exists(found.is_some()))
        },
    }
}

/// Execute one alias administration request against the engine.
pub fn handle_alias(engine: &mut EngineState, req: AliasRequest) -> (r: Result<
    AliasResponse,
    EngineError,
>)
    requires
        old(engine).wf(),
    ensures
        final(engine).wf(),
        alias_post(*old(engine), *final(engine), req, r),
{
    match req {
        AliasRequest::List => {
            let n = engine.aliases.len();
            let mut out: Vec<AliasDescription> = Vec::new();
            let mut i: usize = 0;
            while i < n
                invariant
                    *engine == *old(engine),
                    n == engine.aliases@.len(),
                    i <= n,
                    out@.len() == i,
                    forall|j: int|
                        0 <= j < i ==> (#[trigger] out@[j]).collection_name@
                            == engine.aliases@[j].collection_name@ && out@[j].alias_name@
                            == engine.aliases@[j].alias_name@,
                decreases n - i,
            {
                out.push(
                    AliasDescription {
                        collection_name: engine.aliases[i].collection_name.clone(),
                        alias_name: engine.aliases[i].alias_name.clone(),
                    },
                );
                i += 1;
            }
            Ok(AliasResponse::List(out))
        },
        AliasRequest::Get(name) => {
            match find_collection(&engine.collections, &name) {
                None => Err(EngineError::NotFound(name)),
                Some(_) => Ok(AliasResponse::Get(aliases_of_collection(&engine.aliases, &name))),
            }
        },
        AliasRequest::Create(collection_name, alias_name) => {
            match find_collection(&engine.collections, &collection_name) {
                None => Err(EngineError::NotFound(collection_name)),
                Some(_) => {
                    match find_alias(&engine.aliases, &alias_name) {
                        Some(_) => Err(EngineError::AlreadyExists(alias_name)),
                        None => {
                            engine.aliases.push(AliasDescription { collection_name, alias_name });
                            Ok(AliasResponse::Create(true))
                        },
                    }
                },
            }
        },
        AliasRequest::Delete(alias_name) => {
            match find_alias(&engine.aliases, &alias_name) {
                None => Err(EngineError::NotFound(alias_name)),
                Some(i) => {
                    let _removed = engine.aliases.remove(i);
                    Ok(AliasResponse::Delete(true))
                },
            }
        },
        AliasRequest::Rename(old_name, new_name) => {
            match find_alias(&engine.aliases, &old_name) {
                None => Err(EngineError::NotFound(old_name)),
                Some(i) => {
                    match find_alias(&engine.aliases, &new_name) {
                        Some(_) => Err(EngineError::AlreadyExists(new_name)),
                        None => {
                            let mut entry = engine.aliases.remove(i);
                            entry.alias_name = new_name;
                            engine.aliases.insert(i, entry);
                            proof {
                                let aliases0 = old(engine).aliases@;
                                let target = AliasDescription {
                                    collection_name: aliases0[i as int].collection_name,
                                    alias_name: new_name,
                                };
                                assert(engine.aliases@ =~= aliases0.update(i as int, target));
                            }
                            Ok(AliasResponse::Rename(true))
                        },
                    }
                },
            }
        },
    }
}

} // verus!
