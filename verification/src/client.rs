//! The caller-facing handle: one method per logical request, each a
//! send-then-await-reply round trip, plus health checks and bounded,
//! idempotent disposal.

use vstd::prelude::*;

use crate::engine::has_alias;
use crate::engine::has_col;
use crate::error::EngineError;
use crate::error::OpKind;
use crate::error::RROError;
use crate::instance::execute;
use crate::instance::dispatch_post;
use crate::instance::response_kind;
use crate::instance::response_matches;
use crate::instance::spec_response_kind;
use crate::instance::RRORequest;
use crate::instance::RROResponse;
use crate::instance::RROResult;
use crate::ops::collections::AliasDescription;
use crate::ops::collections::AliasRequest;
use crate::ops::collections::AliasResponse;
use crate::engine::CollectionEntry;
use crate::ops::collections::keeps_other;
use crate::ops::collections::of_collection;
use crate::ops::collections::CollectionInfo;
use crate::ops::collections::UpdateCollection;
use crate::ops::collections::VectorConfig;
use crate::ops::collections::CollectionRequest;
use crate::ops::collections::CollectionResponse;
use crate::ops::ColName;
use crate::engine::kv_distinct;
use crate::ops::points::all_points_ok;
use crate::ops::points::all_vectors_ok;
use crate::ops::points::apply_pv_all;
use crate::ops::points::col_points_updated;
use crate::ops::points::completed;
use crate::ops::points::not_sel_ids;
use crate::ops::points::payload_cleared;
use crate::ops::points::payload_keys_removed;
use crate::ops::points::payload_merged;
use crate::ops::points::payload_overwritten;
use crate::ops::points::sel_ids;
use crate::ops::points::upsert_all;
use crate::ops::points::vectors_cleared;
use crate::ops::points::LocalRecord;
use crate::ops::points::PayloadEntry;
use crate::ops::points::PointRecord;
use crate::ops::points::PointVectors;
use crate::ops::points::ScrollQuery;
use crate::ops::points::PointsRequest;
use crate::ops::points::ScrollResult;
use crate::ops::points::UpdateResult;
use crate::ops::points::PointsResponse;
use crate::ops::query::all_recommends_ok;
use crate::ops::query::all_searches_ok;
use crate::ops::query::head_groups;
use crate::ops::query::head_ids;
use crate::ops::query::window_ids;
use crate::ops::query::GroupsResult;
use crate::ops::query::PointGroup;
use crate::ops::query::RecommendGroupQuery;
use crate::ops::query::RecommendQuery;
use crate::ops::query::SearchGroupQuery;
use crate::ops::query::SearchQuery;
use crate::ops::query::UniversalQuery;
use crate::ops::query::QueryRequest;
use crate::ops::query::QueryResponse;
use crate::worker::Bridge;
use crate::worker::Phase;
use crate::reply_slot::SlotState;
use crate::worker::SendOutcome;

verus! {

/// Default timeout for one request round trip, in milliseconds.
pub const DEFAULT_TIMEOUT_MS: u64 = 30000;

/// Timeout for the asynchronous health check, in milliseconds.
pub const HEALTH_CHECK_TIMEOUT_MS: u64 = 5000;

/// Overall ceiling for waiting on the termination signal during
/// disposal, in milliseconds.
pub const SHUTDOWN_TIMEOUT_MS: u64 = 30000;

/// Sleep between two polls of the termination signal, in milliseconds.
pub const SHUTDOWN_POLL_INTERVAL_MS: u64 = 50;

/// The caller-facing handle of one instance.
#[derive(Debug)]
pub struct RroClient {
    /// The channel, reply slots, lifecycle and engine shared with the
    /// worker.
    pub bridge: Bridge,
}

/// What one poll of the termination signal found.
#[derive(Clone, Copy, Debug, PartialEq, Eq, Structural)]
pub enum TerminationPoll {
    /// The worker confirmed termination.
    Received,
    /// No signal yet.
    Empty,
    /// The worker is gone without signalling.
    SenderGone,
}

/// What disposal does after one poll of the termination signal.
#[derive(Clone, Copy, Debug, PartialEq, Eq, Structural)]
pub enum DisposalAction {
    /// Stop polling: termination is confirmed, or the worker is gone.
    Finished,
    /// Stop polling although termination was not confirmed: the ceiling
    /// was exceeded; log a forced-termination warning and proceed.
    ForceProceed,
    /// Sleep for the poll interval and poll again.
    WaitAndRetry,
}

/// The decision disposal takes after each poll of the termination
/// signal: proceed on confirmation or on a gone worker, force after the
/// ceiling, otherwise wait and retry.
pub fn disposal_poll_action(poll: TerminationPoll, elapsed_ms: u64) -> (a: DisposalAction)
    ensures
        poll is Received ==> a == DisposalAction::Finished,
        poll is SenderGone ==> a == DisposalAction::Finished,
        poll is Empty && elapsed_ms > SHUTDOWN_TIMEOUT_MS ==> a == DisposalAction::ForceProceed,
        poll is Empty && elapsed_ms <= SHUTDOWN_TIMEOUT_MS ==> a == DisposalAction::WaitAndRetry,
{
    match poll {
        TerminationPoll::Received => DisposalAction::Finished,
        TerminationPoll::SenderGone => DisposalAction::Finished,
        TerminationPoll::Empty => {
            if elapsed_ms > SHUTDOWN_TIMEOUT_MS {
                DisposalAction::ForceProceed
            } else {
                DisposalAction::WaitAndRetry
            }
        },
    }
}

/// Map what the waiting caller observed into the reply it reports: a
/// timeout beats everything and carries the timeout used; an abandoned
/// or never-written slot reports the closed channel; an engine error is
/// forwarded verbatim.
pub fn settle(received: Option<RROResult>, timed_out: bool, timeout_ms: u64) -> (r: Result<
    RROResponse,
    RROError,
>)
    ensures
        timed_out ==> r == Err::<RROResponse, RROError>(RROError::Timeout(timeout_ms)),
        !timed_out && received is None
            ==> r == Err::<RROResponse, RROError>(RROError::ChannelClosed),
        !timed_out ==> (received matches Some(inner) ==> r == (match inner {
            Ok(resp) => Ok::<RROResponse, RROError>(resp),
            Err(e) => Err::<RROResponse, RROError>(RROError::Engine(e)),
        })),
{
    if timed_out {
        return Err(RROError::Timeout(timeout_ms));
    }
    match received {
        None => Err(RROError::ChannelClosed),
        Some(Ok(resp)) => Ok(resp),
        Some(Err(e)) => Err(RROError::Engine(e)),
    }
}

impl RroClient {
    /// The handle's invariant between calls: the bridge is well-formed
    /// and quiescent (nothing buffered, no task outstanding).
    pub open spec fn inv(self) -> bool {
        &&& self.bridge.wf()
        &&& self.bridge.queue@.len() == 0
        &&& self.bridge.tasks == 0
    }

    /// Whether the send endpoint is still open: a quick, synchronous
    /// liveness signal only, not a confirmation that the worker is
    /// making progress. False from the moment disposal begins.
    pub fn is_healthy(&self) -> (r: bool)
        ensures
            r == (self.bridge.phase is Accepting),
    {
        self.bridge.is_open()
    }

    /// One full round trip: enqueue the request, let the worker spawn
    /// and finish its task against the engine, take the reply and
    /// settle it.
    fn round_trip(&mut self, req: RRORequest) -> (r: Result<RROResponse, RROError>)
        requires
            old(self).inv(),
        ensures
            final(self).inv(),
            final(self).bridge.phase == old(self).bridge.phase,
            final(self).bridge.capacity == old(self).bridge.capacity,
            final(self).bridge.terminated == old(self).bridge.terminated,
            !(old(self).bridge.phase is Accepting)
                ==> *final(self) == *old(self) && r == Err::<RROResponse, RROError>(RROError::ChannelClosed),
            old(self).bridge.phase is Accepting ==> ({
                ||| (r matches Ok(resp) && dispatch_post(
                    old(self).bridge.engine,
                    final(self).bridge.engine,
                    req,
                    Ok(resp),
                ) && response_matches(req, resp))
                ||| (r matches Err(RROError::Engine(e)) && dispatch_post(
                    old(self).bridge.engine,
                    final(self).bridge.engine,
                    req,
                    Err(e),
                ))
            }),
    {
        match self.bridge.try_send(req) {
            SendOutcome::Closed => Err(RROError::ChannelClosed),
            SendOutcome::Full => {
                proof {
                    assert(false);
                }
                Err(RROError::ChannelClosed)
            },
            SendOutcome::Queued(slot) => {
                proof {
                    assert(self.bridge.queue@.len() == 1);
                    assert(self.bridge.queue@[0].request == req);
                    assert(self.bridge.queue@[0].slot == slot);
                    assert(self.bridge.slots@[slot as int].state is Empty);
                    assert(self.bridge.engine == old(self).bridge.engine);
                }
                match self.bridge.spawn_next() {
                    None => {
                        proof {
                            assert(false);
                        }
                        Err(RROError::ChannelClosed)
                    },
                    Some(m) => {
                        proof {
                            assert(m.request == req);
                            assert(m.slot == slot);
                            assert(self.bridge.slots@[slot as int].state is Empty);
                        }
                        let ghost e0 = self.bridge.engine;
                        let res = execute(&mut self.bridge.engine, m.request);
                        proof {
                            assert(dispatch_post(e0, self.bridge.engine, req, res));
                        }
                        let _delivered = self.bridge.finish_task(m.slot, res);
                        proof {
                            assert(self.bridge.slots@[slot as int].state == SlotState::Written(
                                res,
                            ));
                        }
                        let got = self.bridge.take_reply(slot);
                        proof {
                            assert(got == Some(res));
                        }
                        settle(got, false, DEFAULT_TIMEOUT_MS)
                    },
                }
            },
        }
    }

    /// A real round trip under the short health-check timeout: the
    /// cheapest possible request. It succeeds exactly while the channel
    /// is open and the worker still completes round trips; the engine
    /// is left untouched.
    pub fn health_check(&mut self) -> (r: Result<(), RROError>)
        requires
            old(self).inv(),
        ensures
            final(self).inv(),
            final(self).bridge.phase == old(self).bridge.phase,
            final(self).bridge.engine == old(self).bridge.engine,
            r == Ok::<(), RROError>(()) <==> old(self).bridge.phase is Accepting,
            !(old(self).bridge.phase is Accepting)
                ==> r == Err::<(), RROError>(RROError::ChannelClosed),
    {
        match self.round_trip(RRORequest::Collection(CollectionRequest::List)) {
            Ok(_) => Ok(()),
            Err(e) => Err(e),
        }
    }

    /// Whether the worker has confirmed termination.
    pub fn termination_signaled(&self) -> (r: bool)
        ensures
            r == self.bridge.terminated,
    {
        self.bridge.terminated
    }

    /// Disposal, deterministic and idempotent: close the channel, drain
    /// and finish every buffered request, let the loop exit, and fire
    /// the termination signal once the engine is unshared. When a task
    /// is still outstanding elsewhere, disposal stops short of the
    /// signal (the forced-termination path).
    pub fn dispose(&mut self)
        requires
            old(self).bridge.wf(),
        ensures
            final(self).bridge.wf(),
            old(self).bridge.phase is Starting ==> *final(self) == *old(self),
            old(self).bridge.phase is Terminated ==> *final(self) == *old(self),
            !(old(self).bridge.phase is Starting) && old(self).bridge.tasks == 0
                ==> final(self).bridge.phase is Terminated && final(self).bridge.terminated,
            !(old(self).bridge.phase is Starting) && old(self).bridge.tasks > 0
                ==> final(self).bridge.phase is Reclaiming && !final(self).bridge.terminated,
            final(self).bridge.queue@.len() == 0,
            final(self).bridge.tasks == old(self).bridge.tasks,
            old(self).bridge.queue@.len() == 0
                ==> final(self).bridge.engine == old(self).bridge.engine,
    {
        self.bridge.close();
        while self.bridge.queue.len() > 0
            invariant
                self.bridge.wf(),
                self.bridge.queue@.len() > 0 ==> self.bridge.phase is Draining,
                self.bridge.phase == (if old(self).bridge.phase is Accepting {
                    Phase::Draining
                } else {
                    old(self).bridge.phase
                }),
                self.bridge.tasks == old(self).bridge.tasks,
                self.bridge.terminated == old(self).bridge.terminated,
                self.bridge.capacity == old(self).bridge.capacity,
                old(self).bridge.queue@.len() == 0 ==> self.bridge.queue@.len() == 0
                    && self.bridge.engine == old(self).bridge.engine,
                (old(self).bridge.phase is Starting || old(self).bridge.phase is Terminated)
                    ==> *self == *old(self),
            decreases self.bridge.queue@.len(),
        {
            match self.bridge.spawn_next() {
                Some(m) => {
                    let res = execute(&mut self.bridge.engine, m.request);
                    let _delivered = self.bridge.finish_task(m.slot, res);
                },
                None => {
                    proof {
                        assert(false);
                    }
                },
            }
        }
        self.bridge.finish_draining();
        let _reclaimed = self.bridge.try_reclaim();
    }

    /// Create a collection. A zero vector size is rejected as bad
    /// input, a taken name as a conflict; otherwise exactly one empty
    /// collection with this name and configuration is appended.
    pub fn create_collection(&mut self, name: String, config: VectorConfig) -> (r: Result<
        bool,
        RROError,
    >)
        requires
            old(self).inv(),
        ensures
            final(self).inv(),
            final(self).bridge.phase == old(self).bridge.phase,
            !(old(self).bridge.phase is Accepting) ==> *final(self) == *old(self) && r == Err::<
                bool,
                RROError,
            >(RROError::ChannelClosed),
            old(self).bridge.phase is Accepting ==> ({
                let e0 = old(self).bridge.engine;
                let e1 = final(self).bridge.engine;
                if config.size == 0 {
                    &&& e1 == e0
                    &&& r matches Err(RROError::Engine(EngineError::BadInput(m))) && m@
                        == "vector size must be at least one"@
                } else if has_col(e0.collections@, name@) {
                    &&& e1 == e0
                    &&& r matches Err(RROError::Engine(EngineError::AlreadyExists(n))) && n@
                        == name@
                } else {
                    &&& r == Ok::<bool, RROError>(true)
                    &&& e1.aliases == e0.aliases
                    &&& e1.op_seq == e0.op_seq
                    &&& e1.collections@.len() == e0.collections@.len() + 1
                    &&& e1.collections@.take(e0.collections@.len() as int) == e0.collections@
                    &&& e1.collections@.last().name == name
                    &&& e1.collections@.last().config == config
                    &&& e1.collections@.last().points@.len() == 0
                }
            }),
    {
        let reply = self.round_trip(RRORequest::Collection(CollectionRequest::Create(name, config)));
        create_collection_reply(reply)
    }

    /// List the names of all collections, in creation order.
    pub fn list_collections(&mut self) -> (r: Result<Vec<String>, RROError>)
        requires
            old(self).inv(),
        ensures
            final(self).inv(),
            final(self).bridge.phase == old(self).bridge.phase,
            final(self).bridge.engine == old(self).bridge.engine,
            !(old(self).bridge.phase is Accepting) ==> *final(self) == *old(self) && r == Err::<
                Vec<String>,
                RROError,
            >(RROError::ChannelClosed),
            old(self).bridge.phase is Accepting ==> ({
                let e0 = old(self).bridge.engine;
                r matches Ok(names) && names@.len() == e0.collections@.len() && forall|i: int|
                    0 <= i < names@.len() ==> (#[trigger] names@[i])@ == e0.collections@[i].name@
            }),
    {
        let reply = self.round_trip(RRORequest::Collection(CollectionRequest::List));
        list_collections_reply(reply)
    }

    /// Get the info of a collection: its point count and configuration
    /// when it exists, and nothing when it does not.
    pub fn get_collection(&mut self, name: String) -> (r: Result<Option<CollectionInfo>, RROError>)
        requires
            old(self).inv(),
        ensures
            final(self).inv(),
            final(self).bridge.phase == old(self).bridge.phase,
            final(self).bridge.engine == old(self).bridge.engine,
            !(old(self).bridge.phase is Accepting) ==> *final(self) == *old(self) && r == Err::<
                Option<CollectionInfo>,
                RROError,
            >(RROError::ChannelClosed),
            old(self).bridge.phase is Accepting ==> ({
                let e0 = old(self).bridge.engine;
                if has_col(e0.collections@, name@) {
                    r matches Ok(Some(info)) && exists|i: int|
                        0 <= i < e0.collections@.len() && (#[trigger] e0.collections@[i]).name@
                            == name@ && info.points_count == e0.collections@[i].points@.len()
                            && info.config == e0.collections@[i].config
                } else {
                    r == Ok::<Option<CollectionInfo>, RROError>(None)
                }
            }),
    {
        let reply = self.round_trip(RRORequest::Collection(CollectionRequest::Get(name)));
        get_collection_reply(reply)
    }

    /// Update a collection's configuration: when it exists, exactly its
    /// on-disk flag is replaced (when the update carries one).
    pub fn update_collection(&mut self, name: String, data: UpdateCollection) -> (r: Result<
        bool,
        RROError,
    >)
        requires
            old(self).inv(),
        ensures
            final(self).inv(),
            final(self).bridge.phase == old(self).bridge.phase,
            !(old(self).bridge.phase is Accepting) ==> *final(self) == *old(self) && r == Err::<
                bool,
                RROError,
            >(RROError::ChannelClosed),
            old(self).bridge.phase is Accepting ==> ({
                let e0 = old(self).bridge.engine;
                let e1 = final(self).bridge.engine;
                if has_col(e0.collections@, name@) {
                    &&& r == Ok::<bool, RROError>(true)
                    &&& e1.aliases == e0.aliases
                    &&& e1.op_seq == e0.op_seq
                    &&& exists|i: int|
                        0 <= i < e0.collections@.len() && (#[trigger] e0.collections@[i]).name@
                            == name@ && e1.collections@ == e0.collections@.update(
                            i,
                            CollectionEntry {
                                name: e0.collections@[i].name,
                                config: VectorConfig {
                                    size: e0.collections@[i].config.size,
                                    distance: e0.collections@[i].config.distance,
                                    on_disk: match data.on_disk {
                                        Some(b) => b,
                                        None => e0.collections@[i].config.on_disk,
                                    },
                                },
                                points: e0.collections@[i].points,
                            },
                        )
                } else {
                    &&& e1 == e0
                    &&& r matches Err(RROError::Engine(EngineError::NotFound(n))) && n@ == name@
                }
            }),
    {
        let reply = self.round_trip(RRORequest::Collection(CollectionRequest::Update(name, data)));
        update_collection_reply(reply)
    }

    /// Delete a collection: when it exists it is removed together with
    /// every alias naming it, and the reply says it existed.
    pub fn delete_collection(&mut self, name: String) -> (r: Result<bool, RROError>)
        requires
            old(self).inv(),
        ensures
            final(self).inv(),
            final(self).bridge.phase == old(self).bridge.phase,
            !(old(self).bridge.phase is Accepting) ==> *final(self) == *old(self) && r == Err::<
                bool,
                RROError,
            >(RROError::ChannelClosed),
            old(self).bridge.phase is Accepting ==> ({
                let e0 = old(self).bridge.engine;
                let e1 = final(self).bridge.engine;
                if has_col(e0.collections@, name@) {
                    &&& r == Ok::<bool, RROError>(true)
                    &&& e1.op_seq == e0.op_seq
                    &&& exists|i: int|
                        0 <= i < e0.collections@.len() && (#[trigger] e0.collections@[i]).name@
                            == name@ && e1.collections@ == e0.collections@.remove(i)
                    &&& e1.aliases@ == e0.aliases@.filter(keeps_other(name@))
                } else {
                    &&& e1 == e0
                    &&& r == Ok::<bool, RROError>(false)
                }
            }),
    {
        let reply = self.round_trip(RRORequest::Collection(CollectionRequest::Delete(name)));
        delete_collection_reply(reply)
    }

    /// Report whether a collection with the given name exists.
    pub fn collection_exists(&mut self, name: String) -> (r: Result<bool, RROError>)
        requires
            old(self).inv(),
        ensures
            final(self).inv(),
            final(self).bridge.phase == old(self).bridge.phase,
            final(self).bridge.engine == old(self).bridge.engine,
            !(old(self).bridge.phase is Accepting) ==> *final(self) == *old(self) && r == Err::<
                bool,
                RROError,
            >(RROError::ChannelClosed),
            old(self).bridge.phase is Accepting ==> r == Ok::<bool, RROError>(
                has_col(old(self).bridge.engine.collections@, name@),
            ),
    {
        let reply = self.round_trip(RRORequest::Collection(CollectionRequest::Exists(name)));
        collection_exists_reply(reply)
    }

    /// Create an alias for a collection: the collection must exist and
    /// the alias name must be free.
    pub fn create_alias(&mut self, collection_name: String, alias_name: String) -> (r: Result<
        bool,
        RROError,
    >)
        requires
            old(self).inv(),
        ensures
            final(self).inv(),
            final(self).bridge.phase == old(self).bridge.phase,
            !(old(self).bridge.phase is Accepting) ==> *final(self) == *old(self) && r == Err::<
                bool,
                RROError,
            >(RROError::ChannelClosed),
            old(self).bridge.phase is Accepting ==> ({
                let e0 = old(self).bridge.engine;
                let e1 = final(self).bridge.engine;
                if !has_col(e0.collections@, collection_name@) {
                    &&& e1 == e0
                    &&& r matches Err(RROError::Engine(EngineError::NotFound(n))) && n@
                        == collection_name@
                } else if has_alias(e0.aliases@, alias_name@) {
                    &&& e1 == e0
                    &&& r matches Err(RROError::Engine(EngineError::AlreadyExists(n))) && n@
                        == alias_name@
                } else {
                    &&& r == Ok::<bool, RROError>(true)
                    &&& e1.collections == e0.collections
                    &&& e1.op_seq == e0.op_seq
                    &&& e1.aliases@ == e0.aliases@.push(
                        AliasDescription { collection_name, alias_name },
                    )
                }
            }),
    {
        let reply = self.round_trip(
            RRORequest::Alias(AliasRequest::Create(collection_name, alias_name)),
        );
        create_alias_reply(reply)
    }

    /// List all aliases, as (collection name, alias name) pairs.
    pub fn list_aliases(&mut self) -> (r: Result<Vec<(ColName, String)>, RROError>)
        requires
            old(self).inv(),
        ensures
            final(self).inv(),
            final(self).bridge.phase == old(self).bridge.phase,
            final(self).bridge.engine == old(self).bridge.engine,
            !(old(self).bridge.phase is Accepting) ==> *final(self) == *old(self) && r == Err::<
                Vec<(ColName, String)>,
                RROError,
            >(RROError::ChannelClosed),
            old(self).bridge.phase is Accepting ==> ({
                let e0 = old(self).bridge.engine;
                r matches Ok(pairs) && pairs@.len() == e0.aliases@.len() && forall|i: int|
                    0 <= i < pairs@.len() ==> (#[trigger] pairs@[i]).0@
                        == e0.aliases@[i].collection_name@ && pairs@[i].1@
                        == e0.aliases@[i].alias_name@
            }),
    {
        let reply = self.round_trip(RRORequest::Alias(AliasRequest::List));
        list_aliases_reply(reply)
    }

    /// List the aliases of one collection, as (collection name, alias
    /// name) pairs, in creation order.
    pub fn get_aliases(&mut self, collection_name: String) -> (r: Result<
        Vec<(ColName, String)>,
        RROError,
    >)
        requires
            old(self).inv(),
        ensures
            final(self).inv(),
            final(self).bridge.phase == old(self).bridge.phase,
            final(self).bridge.engine == old(self).bridge.engine,
            !(old(self).bridge.phase is Accepting) ==> *final(self) == *old(self) && r == Err::<
                Vec<(ColName, String)>,
                RROError,
            >(RROError::ChannelClosed),
            old(self).bridge.phase is Accepting ==> ({
                let e0 = old(self).bridge.engine;
                if has_col(e0.collections@, collection_name@) {
                    ({
                        let f = e0.aliases@.filter(of_collection(collection_name@));
                        r matches Ok(pairs) && pairs@.len() == f.len() && forall|i: int|
                            0 <= i < pairs@.len() ==> (#[trigger] pairs@[i]).0
                                == f[i].collection_name && pairs@[i].1 == f[i].alias_name
                    })
                } else {
                    r matches Err(RROError::Engine(EngineError::NotFound(n))) && n@
                        == collection_name@
                }
            }),
    {
        let reply = self.round_trip(RRORequest::Alias(AliasRequest::Get(collection_name)));
        get_aliases_reply(reply)
    }

    /// Delete an alias: the entry with that alias name is removed when
    /// present.
    pub fn delete_alias(&mut self, alias_name: String) -> (r: Result<bool, RROError>)
        requires
            old(self).inv(),
        ensures
            final(self).inv(),
            final(self).bridge.phase == old(self).bridge.phase,
            !(old(self).bridge.phase is Accepting) ==> *final(self) == *old(self) && r == Err::<
                bool,
                RROError,
            >(RROError::ChannelClosed),
            old(self).bridge.phase is Accepting ==> ({
                let e0 = old(self).bridge.engine;
                let e1 = final(self).bridge.engine;
                if has_alias(e0.aliases@, alias_name@) {
                    &&& r == Ok::<bool, RROError>(true)
                    &&& e1.collections == e0.collections
                    &&& e1.op_seq == e0.op_seq
                    &&& exists|i: int|
                        0 <= i < e0.aliases@.len() && (#[trigger] e0.aliases@[i]).alias_name@
                            == alias_name@ && e1.aliases@ == e0.aliases@.remove(i)
                } else {
                    &&& e1 == e0
                    &&& r matches Err(RROError::Engine(EngineError::NotFound(n))) && n@
                        == alias_name@
                }
            }),
    {
        let reply = self.round_trip(RRORequest::Alias(AliasRequest::Delete(alias_name)));
        delete_alias_reply(reply)
    }

    /// Rename an alias: the old name must exist and the new name must
    /// be free; exactly that entry's alias name is replaced.
    pub fn rename_alias(&mut self, old_alias_name: String, new_alias_name: String) -> (r: Result<
        bool,
        RROError,
    >)
        requires
            old(self).inv(),
        ensures
            final(self).inv(),
            final(self).bridge.phase == old(self).bridge.phase,
            !(old(self).bridge.phase is Accepting) ==> *final(self) == *old(self) && r == Err::<
                bool,
                RROError,
            >(RROError::ChannelClosed),
            old(self).bridge.phase is Accepting ==> ({
                let e0 = old(self).bridge.engine;
                let e1 = final(self).bridge.engine;
                if !has_alias(e0.aliases@, old_alias_name@) {
                    &&& e1 == e0
                    &&& r matches Err(RROError::Engine(EngineError::NotFound(n))) && n@
                        == old_alias_name@
                } else if has_alias(e0.aliases@, new_alias_name@) {
                    &&& e1 == e0
                    &&& r matches Err(RROError::Engine(EngineError::AlreadyExists(n))) && n@
                        == new_alias_name@
                } else {
                    &&& r == Ok::<bool, RROError>(true)
                    &&& e1.collections == e0.collections
                    &&& e1.op_seq == e0.op_seq
                    &&& exists|i: int|
                        0 <= i < e0.aliases@.len() && (#[trigger] e0.aliases@[i]).alias_name@
                            == old_alias_name@ && e1.aliases@ == e0.aliases@.update(
                            i,
                            AliasDescription {
                                collection_name: e0.aliases@[i].collection_name,
                                alias_name: new_alias_name,
                            },
                        )
                }
            }),
    {
        let reply = self.round_trip(
            RRORequest::Alias(AliasRequest::Rename(old_alias_name, new_alias_name)),
        );
        rename_alias_reply(reply)
    }

    /// Fetch the stored points with the listed identifiers, in storage
    /// order, without their vectors.
    pub fn get_points(&mut self, collection_name: String, ids: Vec<u64>) -> (r: Result<
        Vec<LocalRecord>,
        RROError,
    >)
        requires
            old(self).inv(),
        ensures
            final(self).inv(),
            final(self).bridge.phase == old(self).bridge.phase,
            final(self).bridge.engine == old(self).bridge.engine,
            !(old(self).bridge.phase is Accepting) ==> *final(self) == *old(self) && r == Err::<
                Vec<LocalRecord>,
                RROError,
            >(RROError::ChannelClosed),
            old(self).bridge.phase is Accepting ==> ({
                let e0 = old(self).bridge.engine;
                if has_col(e0.collections@, collection_name@) {
                    r matches Ok(v) && exists|i: int|
                        {
                            let f = e0.collections@[i].points@.filter(sel_ids(ids@));
                            &&& 0 <= i < e0.collections@.len()
                            &&& (#[trigger] e0.collections@[i]).name@ == collection_name@
                            &&& v@.len() == f.len()
                            &&& forall|j: int|
                                0 <= j < f.len() ==> (#[trigger] v@[j]).id == f[j].id
                                    && v@[j].payload@ == f[j].payload@
                        }
                } else {
                    r matches Err(RROError::Engine(EngineError::NotFound(n))) && n@
                        == collection_name@
                }
            }),
    {
        let reply = self.round_trip(RRORequest::Points(PointsRequest::Get(collection_name, ids)));
        get_points_reply(reply)
    }

    /// Count the points of a collection.
    pub fn count_points(&mut self, collection_name: String) -> (r: Result<usize, RROError>)
        requires
            old(self).inv(),
        ensures
            final(self).inv(),
            final(self).bridge.phase == old(self).bridge.phase,
            final(self).bridge.engine == old(self).bridge.engine,
            !(old(self).bridge.phase is Accepting) ==> *final(self) == *old(self) && r == Err::<
                usize,
                RROError,
            >(RROError::ChannelClosed),
            old(self).bridge.phase is Accepting ==> ({
                let e0 = old(self).bridge.engine;
                if has_col(e0.collections@, collection_name@) {
                    r matches Ok(c) && exists|i: int|
                        0 <= i < e0.collections@.len() && (#[trigger] e0.collections@[i]).name@
                            == collection_name@ && c == e0.collections@[i].points@.len()
                } else {
                    r matches Err(RROError::Engine(EngineError::NotFound(n))) && n@
                        == collection_name@
                }
            }),
    {
        let reply = self.round_trip(RRORequest::Points(PointsRequest::Count(collection_name)));
        count_points_reply(reply)
    }

    /// Page through a collection's points.
    pub fn scroll_points(&mut self, collection_name: String, request: ScrollQuery) -> (r: Result<
        ScrollResult,
        RROError,
    >)
        requires
            old(self).inv(),
        ensures
            final(self).inv(),
            final(self).bridge.phase == old(self).bridge.phase,
            final(self).bridge.engine == old(self).bridge.engine,
            !(old(self).bridge.phase is Accepting) ==> *final(self) == *old(self) && r == Err::<
                ScrollResult,
                RROError,
            >(RROError::ChannelClosed),
            old(self).bridge.phase is Accepting ==> ({
                let e0 = old(self).bridge.engine;
                if has_col(e0.collections@, collection_name@) {
                    r matches Ok(sr) && exists|i: int|
                        {
                            let pts = e0.collections@[i].points@;
                            let n = pts.len() as int;
                            let start = if request.offset as int <= n {
                                request.offset as int
                            } else {
                                n
                            };
                            let end = if request.offset as int + request.limit as int <= n {
                                request.offset as int + request.limit as int
                            } else {
                                n
                            };
                            &&& 0 <= i < e0.collections@.len()
                            &&& (#[trigger] e0.collections@[i]).name@ == collection_name@
                            &&& sr.points@.len() == end - start
                            &&& forall|j: int|
                                0 <= j < sr.points@.len() ==> (#[trigger] sr.points@[j]).id
                                    == pts[start + j].id && sr.points@[j].payload@ == pts[start
                                    + j].payload@
                            &&& sr.next_offset == if end < n {
                                Some(end as usize)
                            } else {
                                None::<usize>
                            }
                        }
                } else {
                    r matches Err(RROError::Engine(EngineError::NotFound(n))) && n@
                        == collection_name@
                }
            }),
    {
        let reply = self.round_trip(
            RRORequest::Points(PointsRequest::Scroll(collection_name, request)),
        );
        scroll_points_reply(reply)
    }

    /// Insert points, replacing stored points with the same identifier,
    /// in input order. Every input point must fit the collection.
    pub fn upsert_points(&mut self, collection_name: String, points: Vec<PointRecord>) -> (r:
        Result<UpdateResult, RROError>)
        requires
            old(self).inv(),
        ensures
            final(self).inv(),
            final(self).bridge.phase == old(self).bridge.phase,
            !(old(self).bridge.phase is Accepting) ==> *final(self) == *old(self) && r == Err::<
                UpdateResult,
                RROError,
            >(RROError::ChannelClosed),
            old(self).bridge.phase is Accepting ==> ({
                let e0 = old(self).bridge.engine;
                let e1 = final(self).bridge.engine;
                if has_col(e0.collections@, collection_name@) {
                    exists|i: int|
                        0 <= i < e0.collections@.len() && (#[trigger] e0.collections@[i]).name@
                            == collection_name@ && if !all_points_ok(
                            points@,
                            e0.collections@[i].config.size,
                        ) {
                            &&& e1 == e0
                            &&& r matches Err(RROError::Engine(EngineError::BadInput(m))) && m@
                                == "point rejected: wrong vector dimension or duplicate payload keys"@
                        } else {
                            &&& r == Ok::<UpdateResult, RROError>(completed(e0.op_seq))
                            &&& col_points_updated(
                                e0,
                                e1,
                                i,
                                upsert_all(e0.collections@[i].points@, points@),
                            )
                        }
                } else {
                    &&& e1 == e0
                    &&& r matches Err(RROError::Engine(EngineError::NotFound(n))) && n@
                        == collection_name@
                }
            }),
    {
        let reply = self.round_trip(
            RRORequest::Points(PointsRequest::Upsert(collection_name, points)),
        );
        upsert_points_reply(reply)
    }

    /// Delete the points with the listed identifiers, in one mutation.
    pub fn delete_points(&mut self, collection_name: String, points: Vec<u64>) -> (r: Result<
        UpdateResult,
        RROError,
    >)
        requires
            old(self).inv(),
        ensures
            final(self).inv(),
            final(self).bridge.phase == old(self).bridge.phase,
            !(old(self).bridge.phase is Accepting) ==> *final(self) == *old(self) && r == Err::<
                UpdateResult,
                RROError,
            >(RROError::ChannelClosed),
            old(self).bridge.phase is Accepting ==> ({
                let e0 = old(self).bridge.engine;
                let e1 = final(self).bridge.engine;
                if has_col(e0.collections@, collection_name@) {
                    &&& r == Ok::<UpdateResult, RROError>(completed(e0.op_seq))
                    &&& exists|i: int|
                        0 <= i < e0.collections@.len() && (#[trigger] e0.collections@[i]).name@
                            == collection_name@ && col_points_updated(
                            e0,
                            e1,
                            i,
                            e0.collections@[i].points@.filter(not_sel_ids(points@)),
                        )
                } else {
                    &&& e1 == e0
                    &&& r matches Err(RROError::Engine(EngineError::NotFound(n))) && n@
                        == collection_name@
                }
            }),
    {
        let reply = self.round_trip(
            RRORequest::Points(PointsRequest::Delete(collection_name, points)),
        );
        delete_points_reply(reply)
    }

    /// Replace the vectors of the listed points, where present, in
    /// input order. Every replacement must fit the collection.
    pub fn update_vectors(&mut self, collection_name: String, points: Vec<PointVectors>) -> (r:
        Result<UpdateResult, RROError>)
        requires
            old(self).inv(),
        ensures
            final(self).inv(),
            final(self).bridge.phase == old(self).bridge.phase,
            !(old(self).bridge.phase is Accepting) ==> *final(self) == *old(self) && r == Err::<
                UpdateResult,
                RROError,
            >(RROError::ChannelClosed),
            old(self).bridge.phase is Accepting ==> ({
                let e0 = old(self).bridge.engine;
                let e1 = final(self).bridge.engine;
                if has_col(e0.collections@, collection_name@) {
                    exists|i: int|
                        0 <= i < e0.collections@.len() && (#[trigger] e0.collections@[i]).name@
                            == collection_name@ && if !all_vectors_ok(
                            points@,
                            e0.collections@[i].config.size,
                        ) {
                            &&& e1 == e0
                            &&& r matches Err(RROError::Engine(EngineError::BadInput(m))) && m@
                                == "vector rejected: wrong dimension"@
                        } else {
                            &&& r == Ok::<UpdateResult, RROError>(completed(e0.op_seq))
                            &&& col_points_updated(
                                e0,
                                e1,
                                i,
                                apply_pv_all(e0.collections@[i].points@, points@),
                            )
                        }
                } else {
                    &&& e1 == e0
                    &&& r matches Err(RROError::Engine(EngineError::NotFound(n))) && n@
                        == collection_name@
                }
            }),
    {
        let reply = self.round_trip(
            RRORequest::Points(PointsRequest::UpdateVectors(collection_name, points)),
        );
        update_vectors_reply(reply)
    }

    /// Delete the vectors of the listed points; the points stay.
    pub fn delete_vectors(&mut self, collection_name: String, points: Vec<u64>) -> (r: Result<
        UpdateResult,
        RROError,
    >)
        requires
            old(self).inv(),
        ensures
            final(self).inv(),
            final(self).bridge.phase == old(self).bridge.phase,
            !(old(self).bridge.phase is Accepting) ==> *final(self) == *old(self) && r == Err::<
                UpdateResult,
                RROError,
            >(RROError::ChannelClosed),
            old(self).bridge.phase is Accepting ==> ({
                let e0 = old(self).bridge.engine;
                let e1 = final(self).bridge.engine;
                if has_col(e0.collections@, collection_name@) {
                    &&& r == Ok::<UpdateResult, RROError>(completed(e0.op_seq))
                    &&& exists|i: int|
                        0 <= i < e0.collections@.len() && (#[trigger] e0.collections@[i]).name@
                            == collection_name@ && col_points_updated(
                            e0,
                            e1,
                            i,
                            e1.collections@[i].points@,
                        ) && vectors_cleared(
                            e0.collections@[i].points@,
                            e1.collections@[i].points@,
                            points@,
                        )
                } else {
                    &&& e1 == e0
                    &&& r matches Err(RROError::Engine(EngineError::NotFound(n))) && n@
                        == collection_name@
                }
            }),
    {
        let reply = self.round_trip(
            RRORequest::Points(PointsRequest::DeleteVectors(collection_name, points)),
        );
        delete_vectors_reply(reply)
    }

    /// Merge payload entries into the listed points; the entries' keys
    /// must be pairwise distinct.
    pub fn set_payload(
        &mut self,
        collection_name: String,
        points: Vec<u64>,
        payload: Vec<PayloadEntry>,
    ) -> (r: Result<UpdateResult, RROError>)
        requires
            old(self).inv(),
        ensures
            final(self).inv(),
            final(self).bridge.phase == old(self).bridge.phase,
            !(old(self).bridge.phase is Accepting) ==> *final(self) == *old(self) && r == Err::<
                UpdateResult,
                RROError,
            >(RROError::ChannelClosed),
            old(self).bridge.phase is Accepting ==> ({
                let e0 = old(self).bridge.engine;
                let e1 = final(self).bridge.engine;
                if has_col(e0.collections@, collection_name@) {
                    if !kv_distinct(payload@) {
                        &&& e1 == e0
                        &&& r matches Err(RROError::Engine(EngineError::BadInput(m))) && m@
                            == "duplicate payload keys"@
                    } else {
                        &&& r == Ok::<UpdateResult, RROError>(completed(e0.op_seq))
                        &&& exists|i: int|
                            0 <= i < e0.collections@.len() && (#[trigger] e0.collections@[i]).name@
                                == collection_name@ && col_points_updated(
                                e0,
                                e1,
                                i,
                                e1.collections@[i].points@,
                            ) && payload_merged(
                                e0.collections@[i].points@,
                                e1.collections@[i].points@,
                                points@,
                                payload@,
                            )
                    }
                } else {
                    &&& e1 == e0
                    &&& r matches Err(RROError::Engine(EngineError::NotFound(n))) && n@
                        == collection_name@
                }
            }),
    {
        let reply = self.round_trip(
            RRORequest::Points(PointsRequest::SetPayload(collection_name, points, payload)),
        );
        set_payload_reply(reply)
    }

    /// Replace the payloads of the listed points by the entries; the
    /// entries' keys must be pairwise distinct.
    pub fn overwrite_payload(
        &mut self,
        collection_name: String,
        points: Vec<u64>,
        payload: Vec<PayloadEntry>,
    ) -> (r: Result<UpdateResult, RROError>)
        requires
            old(self).inv(),
        ensures
            final(self).inv(),
            final(self).bridge.phase == old(self).bridge.phase,
            !(old(self).bridge.phase is Accepting) ==> *final(self) == *old(self) && r == Err::<
                UpdateResult,
                RROError,
            >(RROError::ChannelClosed),
            old(self).bridge.phase is Accepting ==> ({
                let e0 = old(self).bridge.engine;
                let e1 = final(self).bridge.engine;
                if has_col(e0.collections@, collection_name@) {
                    if !kv_distinct(payload@) {
                        &&& e1 == e0
                        &&& r matches Err(RROError::Engine(EngineError::BadInput(m))) && m@
                            == "duplicate payload keys"@
                    } else {
                        &&& r == Ok::<UpdateResult, RROError>(completed(e0.op_seq))
                        &&& exists|i: int|
                            0 <= i < e0.collections@.len() && (#[trigger] e0.collections@[i]).name@
                                == collection_name@ && col_points_updated(
                                e0,
                                e1,
                                i,
                                e1.collections@[i].points@,
                            ) && payload_overwritten(
                                e0.collections@[i].points@,
                                e1.collections@[i].points@,
                                points@,
                                payload@,
                            )
                    }
                } else {
                    &&& e1 == e0
                    &&& r matches Err(RROError::Engine(EngineError::NotFound(n))) && n@
                        == collection_name@
                }
            }),
    {
        let reply = self.round_trip(
            RRORequest::Points(PointsRequest::OverwritePayload(collection_name, points, payload)),
        );
        overwrite_payload_reply(reply)
    }

    /// Remove the listed keys from the payloads of the listed points.
    pub fn delete_payload(
        &mut self,
        collection_name: String,
        points: Vec<u64>,
        keys: Vec<String>,
    ) -> (r: Result<UpdateResult, RROError>)
        requires
            old(self).inv(),
        ensures
            final(self).inv(),
            final(self).bridge.phase == old(self).bridge.phase,
            !(old(self).bridge.phase is Accepting) ==> *final(self) == *old(self) && r == Err::<
                UpdateResult,
                RROError,
            >(RROError::ChannelClosed),
            old(self).bridge.phase is Accepting ==> ({
                let e0 = old(self).bridge.engine;
                let e1 = final(self).bridge.engine;
                if has_col(e0.collections@, collection_name@) {
                    &&& r == Ok::<UpdateResult, RROError>(completed(e0.op_seq))
                    &&& exists|i: int|
                        0 <= i < e0.collections@.len() && (#[trigger] e0.collections@[i]).name@
                            == collection_name@ && col_points_updated(
                            e0,
                            e1,
                            i,
                            e1.collections@[i].points@,
                        ) && payload_keys_removed(
                            e0.collections@[i].points@,
                            e1.collections@[i].points@,
                            points@,
                            keys@,
                        )
                } else {
                    &&& e1 == e0
                    &&& r matches Err(RROError::Engine(EngineError::NotFound(n))) && n@
                        == collection_name@
                }
            }),
    {
        let reply = self.round_trip(
            RRORequest::Points(PointsRequest::DeletePayload(collection_name, points, keys)),
        );
        delete_payload_reply(reply)
    }

    /// Empty the payloads of the listed points.
    pub fn clear_payload(&mut self, collection_name: String, points: Vec<u64>) -> (r: Result<
        UpdateResult,
        RROError,
    >)
        requires
            old(self).inv(),
        ensures
            final(self).inv(),
            final(self).bridge.phase == old(self).bridge.phase,
            !(old(self).bridge.phase is Accepting) ==> *final(self) == *old(self) && r == Err::<
                UpdateResult,
                RROError,
            >(RROError::ChannelClosed),
            old(self).bridge.phase is Accepting ==> ({
                let e0 = old(self).bridge.engine;
                let e1 = final(self).bridge.engine;
                if has_col(e0.collections@, collection_name@) {
                    &&& r == Ok::<UpdateResult, RROError>(completed(e0.op_seq))
                    &&& exists|i: int|
                        0 <= i < e0.collections@.len() && (#[trigger] e0.collections@[i]).name@
                            == collection_name@ && col_points_updated(
                            e0,
                            e1,
                            i,
                            e1.collections@[i].points@,
                        ) && payload_cleared(
                            e0.collections@[i].points@,
                            e1.collections@[i].points@,
                            points@,
                        )
                } else {
                    &&& e1 == e0
                    &&& r matches Err(RROError::Engine(EngineError::NotFound(n))) && n@
                        == collection_name@
                }
            }),
    {
        let reply = self.round_trip(
            RRORequest::Points(PointsRequest::ClearPayload(collection_name, points)),
        );
        clear_payload_reply(reply)
    }

    /// Search a collection: the query vector must fit its dimension;
    /// the reply lists the found point identifiers.
    pub fn search_points(&mut self, collection_name: String, data: SearchQuery) -> (r: Result<
        Vec<u64>,
        RROError,
    >)
        requires
            old(self).inv(),
        ensures
            final(self).inv(),
            final(self).bridge.phase == old(self).bridge.phase,
            final(self).bridge.engine == old(self).bridge.engine,
            !(old(self).bridge.phase is Accepting) ==> *final(self) == *old(self) && r == Err::<
                Vec<u64>,
                RROError,
            >(RROError::ChannelClosed),
            old(self).bridge.phase is Accepting ==> ({
                let e0 = old(self).bridge.engine;
                if has_col(e0.collections@, collection_name@) {
                    exists|i: int|
                        0 <= i < e0.collections@.len() && (#[trigger] e0.collections@[i]).name@
                            == collection_name@ && if data.vector@.len()
                            != e0.collections@[i].config.size {
                            r matches Err(RROError::Engine(EngineError::BadInput(m))) && m@
                                == "vector rejected: wrong dimension"@
                        } else {
                            r matches Ok(v) && head_ids(
                                e0.collections@[i].points@,
                                data.limit,
                                v@,
                            )
                        }
                } else {
                    r matches Err(RROError::Engine(EngineError::NotFound(n))) && n@
                        == collection_name@
                }
            }),
    {
        let reply = self.round_trip(
            RRORequest::Query(QueryRequest::Search(collection_name, data)),
        );
        search_points_reply(reply)
    }

    /// Several searches against one collection, answered one result
    /// list per query.
    pub fn search_points_batch(&mut self, collection_name: String, data: Vec<SearchQuery>) -> (r:
        Result<Vec<Vec<u64>>, RROError>)
        requires
            old(self).inv(),
        ensures
            final(self).inv(),
            final(self).bridge.phase == old(self).bridge.phase,
            final(self).bridge.engine == old(self).bridge.engine,
            !(old(self).bridge.phase is Accepting) ==> *final(self) == *old(self) && r == Err::<
                Vec<Vec<u64>>,
                RROError,
            >(RROError::ChannelClosed),
            old(self).bridge.phase is Accepting ==> ({
                let e0 = old(self).bridge.engine;
                if has_col(e0.collections@, collection_name@) {
                    exists|i: int|
                        0 <= i < e0.collections@.len() && (#[trigger] e0.collections@[i]).name@
                            == collection_name@ && if !all_searches_ok(
                            data@,
                            e0.collections@[i].config.size,
                        ) {
                            r matches Err(RROError::Engine(EngineError::BadInput(m))) && m@
                                == "vector rejected: wrong dimension"@
                        } else {
                            r matches Ok(v) && v@.len() == data@.len() && forall|b: int|
                                0 <= b < v@.len() ==> head_ids(
                                    e0.collections@[i].points@,
                                    data@[b].limit,
                                    (#[trigger] v@[b])@,
                                )
                        }
                } else {
                    r matches Err(RROError::Engine(EngineError::NotFound(n))) && n@
                        == collection_name@
                }
            }),
    {
        let reply = self.round_trip(
            RRORequest::Query(QueryRequest::SearchBatch(collection_name, data)),
        );
        search_points_batch_reply(reply)
    }

    /// A grouped search: one single-hit group per found point.
    pub fn search_points_group_by(
        &mut self,
        collection_name: String,
        data: SearchGroupQuery,
    ) -> (r: Result<Vec<PointGroup>, RROError>)
        requires
            old(self).inv(),
        ensures
            final(self).inv(),
            final(self).bridge.phase == old(self).bridge.phase,
            final(self).bridge.engine == old(self).bridge.engine,
            !(old(self).bridge.phase is Accepting) ==> *final(self) == *old(self) && r == Err::<
                Vec<PointGroup>,
                RROError,
            >(RROError::ChannelClosed),
            old(self).bridge.phase is Accepting ==> ({
                let e0 = old(self).bridge.engine;
                if has_col(e0.collections@, collection_name@) {
                    exists|i: int|
                        0 <= i < e0.collections@.len() && (#[trigger] e0.collections@[i]).name@
                            == collection_name@ && if data.vector@.len()
                            != e0.collections@[i].config.size {
                            r matches Err(RROError::Engine(EngineError::BadInput(m))) && m@
                                == "vector rejected: wrong dimension"@
                        } else if data.group_size == 0 {
                            r matches Err(RROError::Engine(EngineError::BadInput(m))) && m@
                                == "group size must be at least one"@
                        } else {
                            r matches Ok(groups) && head_groups(
                                e0.collections@[i].points@,
                                data.limit,
                                GroupsResult { groups },
                            )
                        }
                } else {
                    r matches Err(RROError::Engine(EngineError::NotFound(n))) && n@
                        == collection_name@
                }
            }),
    {
        let reply = self.round_trip(
            RRORequest::Query(QueryRequest::SearchGroup(collection_name, data)),
        );
        search_points_group_by_reply(reply)
    }

    /// A universal query: the identifiers in the window given by its
    /// offset and limit.
    pub fn query_points(&mut self, collection_name: String, data: UniversalQuery) -> (r: Result<
        Vec<u64>,
        RROError,
    >)
        requires
            old(self).inv(),
        ensures
            final(self).inv(),
            final(self).bridge.phase == old(self).bridge.phase,
            final(self).bridge.engine == old(self).bridge.engine,
            !(old(self).bridge.phase is Accepting) ==> *final(self) == *old(self) && r == Err::<
                Vec<u64>,
                RROError,
            >(RROError::ChannelClosed),
            old(self).bridge.phase is Accepting ==> ({
                let e0 = old(self).bridge.engine;
                if has_col(e0.collections@, collection_name@) {
                    r matches Ok(v) && exists|i: int|
                        0 <= i < e0.collections@.len() && (#[trigger] e0.collections@[i]).name@
                            == collection_name@ && window_ids(
                            e0.collections@[i].points@,
                            data.offset,
                            data.limit,
                            v@,
                        )
                } else {
                    r matches Err(RROError::Engine(EngineError::NotFound(n))) && n@
                        == collection_name@
                }
            }),
    {
        let reply = self.round_trip(RRORequest::Query(QueryRequest::Query(collection_name, data)));
        query_points_reply(reply)
    }

    /// Recommend points by example: at least one positive example is
    /// required.
    pub fn recommend_points(&mut self, collection_name: String, data: RecommendQuery) -> (r:
        Result<Vec<u64>, RROError>)
        requires
            old(self).inv(),
        ensures
            final(self).inv(),
            final(self).bridge.phase == old(self).bridge.phase,
            final(self).bridge.engine == old(self).bridge.engine,
            !(old(self).bridge.phase is Accepting) ==> *final(self) == *old(self) && r == Err::<
                Vec<u64>,
                RROError,
            >(RROError::ChannelClosed),
            old(self).bridge.phase is Accepting ==> ({
                let e0 = old(self).bridge.engine;
                if has_col(e0.collections@, collection_name@) {
                    exists|i: int|
                        0 <= i < e0.collections@.len() && (#[trigger] e0.collections@[i]).name@
                            == collection_name@ && if data.positive@.len() == 0 {
                            r matches Err(RROError::Engine(EngineError::BadInput(m))) && m@
                                == "recommendation needs a positive example"@
                        } else {
                            r matches Ok(v) && head_ids(
                                e0.collections@[i].points@,
                                data.limit,
                                v@,
                            )
                        }
                } else {
                    r matches Err(RROError::Engine(EngineError::NotFound(n))) && n@
                        == collection_name@
                }
            }),
    {
        let reply = self.round_trip(
            RRORequest::Query(QueryRequest::Recommend(collection_name, data)),
        );
        recommend_points_reply(reply)
    }

    /// Several recommendations against one collection.
    pub fn recommend_points_batch(
        &mut self,
        collection_name: String,
        data: Vec<RecommendQuery>,
    ) -> (r: Result<Vec<Vec<u64>>, RROError>)
        requires
            old(self).inv(),
        ensures
            final(self).inv(),
            final(self).bridge.phase == old(self).bridge.phase,
            final(self).bridge.engine == old(self).bridge.engine,
            !(old(self).bridge.phase is Accepting) ==> *final(self) == *old(self) && r == Err::<
                Vec<Vec<u64>>,
                RROError,
            >(RROError::ChannelClosed),
            old(self).bridge.phase is Accepting ==> ({
                let e0 = old(self).bridge.engine;
                if has_col(e0.collections@, collection_name@) {
                    exists|i: int|
                        0 <= i < e0.collections@.len() && (#[trigger] e0.collections@[i]).name@
                            == collection_name@ && if !all_recommends_ok(data@) {
                            r matches Err(RROError::Engine(EngineError::BadInput(m))) && m@
                                == "recommendation needs a positive example"@
                        } else {
                            r matches Ok(v) && v@.len() == data@.len() && forall|b: int|
                                0 <= b < v@.len() ==> head_ids(
                                    e0.collections@[i].points@,
                                    data@[b].limit,
                                    (#[trigger] v@[b])@,
                                )
                        }
                } else {
                    r matches Err(RROError::Engine(EngineError::NotFound(n))) && n@
                        == collection_name@
                }
            }),
    {
        let reply = self.round_trip(
            RRORequest::Query(QueryRequest::RecommendBatch(collection_name, data)),
        );
        recommend_points_batch_reply(reply)
    }

    /// A grouped recommendation: one single-hit group per found point.
    pub fn recommend_points_group_by(
        &mut self,
        collection_name: String,
        data: RecommendGroupQuery,
    ) -> (r: Result<Vec<PointGroup>, RROError>)
        requires
            old(self).inv(),
        ensures
            final(self).inv(),
            final(self).bridge.phase == old(self).bridge.phase,
            final(self).bridge.engine == old(self).bridge.engine,
            !(old(self).bridge.phase is Accepting) ==> *final(self) == *old(self) && r == Err::<
                Vec<PointGroup>,
                RROError,
            >(RROError::ChannelClosed),
            old(self).bridge.phase is Accepting ==> ({
                let e0 = old(self).bridge.engine;
                if has_col(e0.collections@, collection_name@) {
                    exists|i: int|
                        0 <= i < e0.collections@.len() && (#[trigger] e0.collections@[i]).name@
                            == collection_name@ && if data.positive@.len() == 0 {
                            r matches Err(RROError::Engine(EngineError::BadInput(m))) && m@
                                == "recommendation needs a positive example"@
                        } else if data.group_size == 0 {
                            r matches Err(RROError::Engine(EngineError::BadInput(m))) && m@
                                == "group size must be at least one"@
                        } else {
                            r matches Ok(groups) && head_groups(
                                e0.collections@[i].points@,
                                data.limit,
                                GroupsResult { groups },
                            )
                        }
                } else {
                    r matches Err(RROError::Engine(EngineError::NotFound(n))) && n@
                        == collection_name@
                }
            }),
    {
        let reply = self.round_trip(
            RRORequest::Query(QueryRequest::RecommendGroup(collection_name, data)),
        );
        recommend_points_group_by_reply(reply)
    }
}

/// Read a create-collection reply: the matching variant yields its
/// status, any other variant is a protocol violation, an error passes
/// through.
pub fn create_collection_reply(r: Result<RROResponse, RROError>) -> (out: Result<bool, RROError>)
    ensures
        out == (match r {
            Ok(RROResponse::Collection(CollectionResponse::Create(b))) => Ok::<bool, RROError>(b),
            Ok(resp) => Err::<bool, RROError>(
                RROError::UnexpectedResponse {
                    expected: OpKind::CollectionCreate,
                    actual: spec_response_kind(resp),
                },
            ),
            Err(e) => Err::<bool, RROError>(e),
        }),
{
    match r {
        Ok(RROResponse::Collection(CollectionResponse::Create(b))) => Ok(b),
        Ok(resp) => Err(RROError::unexpected(OpKind::CollectionCreate, response_kind(&resp))),
        Err(e) => Err(e),
    }
}

/// Read a list-collections reply.
pub fn list_collections_reply(r: Result<RROResponse, RROError>) -> (out: Result<
    Vec<String>,
    RROError,
>)
    ensures
        out == (match r {
            Ok(RROResponse::Collection(CollectionResponse::List(v))) => Ok::<
                Vec<String>,
                RROError,
            >(v),
            Ok(resp) => Err::<Vec<String>, RROError>(
                RROError::UnexpectedResponse {
                    expected: OpKind::CollectionList,
                    actual: spec_response_kind(resp),
                },
            ),
            Err(e) => Err::<Vec<String>, RROError>(e),
        }),
{
    match r {
        Ok(RROResponse::Collection(CollectionResponse::List(v))) => Ok(v),
        Ok(resp) => Err(RROError::unexpected(OpKind::CollectionList, response_kind(&resp))),
        Err(e) => Err(e),
    }
}

/// Read a get-collection reply: a not-found engine error becomes an
/// absent info, as callers expect from a lookup.
pub fn get_collection_reply(r: Result<RROResponse, RROError>) -> (out: Result<
    Option<CollectionInfo>,
    RROError,
>)
    ensures
        out == (match r {
            Ok(RROResponse::Collection(CollectionResponse::Get(info))) => Ok::<
                Option<CollectionInfo>,
                RROError,
            >(Some(info)),
            Ok(resp) => Err::<Option<CollectionInfo>, RROError>(
                RROError::UnexpectedResponse {
                    expected: OpKind::CollectionGet,
                    actual: spec_response_kind(resp),
                },
            ),
            Err(RROError::Engine(EngineError::NotFound(_))) => Ok::<
                Option<CollectionInfo>,
                RROError,
            >(None),
            Err(e) => Err::<Option<CollectionInfo>, RROError>(e),
        }),
{
    match r {
        Ok(RROResponse::Collection(CollectionResponse::Get(info))) => Ok(Some(info)),
        Ok(resp) => Err(RROError::unexpected(OpKind::CollectionGet, response_kind(&resp))),
        Err(RROError::Engine(EngineError::NotFound(_))) => Ok(None),
        Err(e) => Err(e),
    }
}

/// Read an update-collection reply.
pub fn update_collection_reply(r: Result<RROResponse, RROError>) -> (out: Result<bool, RROError>)
    ensures
        out == (match r {
            Ok(RROResponse::Collection(CollectionResponse::Update(b))) => Ok::<bool, RROError>(b),
            Ok(resp) => Err::<bool, RROError>(
                RROError::UnexpectedResponse {
                    expected: OpKind::CollectionUpdate,
                    actual: spec_response_kind(resp),
                },
            ),
            Err(e) => Err::<bool, RROError>(e),
        }),
{
    match r {
        Ok(RROResponse::Collection(CollectionResponse::Update(b))) => Ok(b),
        Ok(resp) => Err(RROError::unexpected(OpKind::CollectionUpdate, response_kind(&resp))),
        Err(e) => Err(e),
    }
}

/// Read a delete-collection reply.
pub fn delete_collection_reply(r: Result<RROResponse, RROError>) -> (out: Result<bool, RROError>)
    ensures
        out == (match r {
            Ok(RROResponse::Collection(CollectionResponse::Delete(b))) => Ok::<bool, RROError>(b),
            Ok(resp) => Err::<bool, RROError>(
                RROError::UnexpectedResponse {
                    expected: OpKind::CollectionDelete,
                    actual: spec_response_kind(resp),
                },
            ),
            Err(e) => Err::<bool, RROError>(e),
        }),
{
    match r {
        Ok(RROResponse::Collection(CollectionResponse::Delete(b))) => Ok(b),
        Ok(resp) => Err(RROError::unexpected(OpKind::CollectionDelete, response_kind(&resp))),
        Err(e) => Err(e),
    }
}

/// Read a collection-exists reply.
pub fn collection_exists_reply(r: Result<RROResponse, RROError>) -> (out: Result<bool, RROError>)
    ensures
        out == (match r {
            Ok(RROResponse::Collection(CollectionResponse::Exists(b))) => Ok::<bool, RROError>(b),
            Ok(resp) => Err::<bool, RROError>(
                RROError::UnexpectedResponse {
                    expected: OpKind::CollectionExists,
                    actual: spec_response_kind(resp),
                },
            ),
            Err(e) => Err::<bool, RROError>(e),
        }),
{
    match r {
        Ok(RROResponse::Collection(CollectionResponse::Exists(b))) => Ok(b),
        Ok(resp) => Err(RROError::unexpected(OpKind::CollectionExists, response_kind(&resp))),
        Err(e) => Err(e),
    }
}

/// Read a create-alias reply.
pub fn create_alias_reply(r: Result<RROResponse, RROError>) -> (out: Result<bool, RROError>)
    ensures
        out == (match r {
            Ok(RROResponse::Alias(AliasResponse::Create(b))) => Ok::<bool, RROError>(b),
            Ok(resp) => Err::<bool, RROError>(
                RROError::UnexpectedResponse {
                    expected: OpKind::AliasCreate,
                    actual: spec_response_kind(resp),
                },
            ),
            Err(e) => Err::<bool, RROError>(e),
        }),
{
    match r {
        Ok(RROResponse::Alias(AliasResponse::Create(b))) => Ok(b),
        Ok(resp) => Err(RROError::unexpected(OpKind::AliasCreate, response_kind(&resp))),
        Err(e) => Err(e),
    }
}

/// Read a delete-alias reply.
pub fn delete_alias_reply(r: Result<RROResponse, RROError>) -> (out: Result<bool, RROError>)
    ensures
        out == (match r {
            Ok(RROResponse::Alias(AliasResponse::Delete(b))) => Ok::<bool, RROError>(b),
            Ok(resp) => Err::<bool, RROError>(
                RROError::UnexpectedResponse {
                    expected: OpKind::AliasDelete,
                    actual: spec_response_kind(resp),
                },
            ),
            Err(e) => Err::<bool, RROError>(e),
        }),
{
    match r {
        Ok(RROResponse::Alias(AliasResponse::Delete(b))) => Ok(b),
        Ok(resp) => Err(RROError::unexpected(OpKind::AliasDelete, response_kind(&resp))),
        Err(e) => Err(e),
    }
}

/// Read a rename-alias reply.
pub fn rename_alias_reply(r: Result<RROResponse, RROError>) -> (out: Result<bool, RROError>)
    ensures
        out == (match r {
            Ok(RROResponse::Alias(AliasResponse::Rename(b))) => Ok::<bool, RROError>(b),
            Ok(resp) => Err::<bool, RROError>(
                RROError::UnexpectedResponse {
                    expected: OpKind::AliasRename,
                    actual: spec_response_kind(resp),
                },
            ),
            Err(e) => Err::<bool, RROError>(e),
        }),
{
    match r {
        Ok(RROResponse::Alias(AliasResponse::Rename(b))) => Ok(b),
        Ok(resp) => Err(RROError::unexpected(OpKind::AliasRename, response_kind(&resp))),
        Err(e) => Err(e),
    }
}

/// Turn alias entries into (collection name, alias name) pairs, in
/// order.
fn alias_pairs(v: Vec<AliasDescription>) -> (pairs: Vec<(ColName, String)>)
    ensures
        pairs@.len() == v@.len(),
        forall|i: int|
            0 <= i < v@.len() ==> (#[trigger] pairs@[i]).0 == v@[i].collection_name && pairs@[i].1
                == v@[i].alias_name,
{
    let ghost v0 = v@;
    let mut src = v;
    let total = src.len();
    let mut pairs: Vec<(ColName, String)> = Vec::new();
    let mut i: usize = 0;
    while i < total
        invariant
            total == v0.len(),
            i <= total,
            src@ == v0.skip(i as int),
            pairs@.len() == i,
            forall|t: int|
                0 <= t < i ==> (#[trigger] pairs@[t]).0 == v0[t].collection_name && pairs@[t].1
                    == v0[t].alias_name,
        decreases total - i,
    {
        let a = src.remove(0);
        proof {
            assert(v0.skip(i as int).first() == v0[i as int]);
            assert(v0.skip(i as int).remove(0) =~= v0.skip(i as int + 1));
        }
        pairs.push((a.collection_name, a.alias_name));
        i += 1;
    }
    pairs
}

/// Read a list-aliases reply, as (collection name, alias name) pairs.
pub fn list_aliases_reply(r: Result<RROResponse, RROError>) -> (out: Result<
    Vec<(ColName, String)>,
    RROError,
>)
    ensures
        match r {
            Ok(RROResponse::Alias(AliasResponse::List(v))) => out matches Ok(pairs)
                && pairs@.len() == v@.len() && forall|i: int|
                0 <= i < v@.len() ==> (#[trigger] pairs@[i]).0 == v@[i].collection_name
                    && pairs@[i].1 == v@[i].alias_name,
            Ok(resp) => out == Err::<Vec<(ColName, String)>, RROError>(
                RROError::UnexpectedResponse {
                    expected: OpKind::AliasList,
                    actual: spec_response_kind(resp),
                },
            ),
            Err(e) => out == Err::<Vec<(ColName, String)>, RROError>(e),
        },
{
    match r {
        Ok(RROResponse::Alias(AliasResponse::List(v))) => Ok(alias_pairs(v)),
        Ok(resp) => Err(RROError::unexpected(OpKind::AliasList, response_kind(&resp))),
        Err(e) => Err(e),
    }
}

/// Read a get-aliases reply, as (collection name, alias name) pairs.
pub fn get_aliases_reply(r: Result<RROResponse, RROError>) -> (out: Result<
    Vec<(ColName, String)>,
    RROError,
>)
    ensures
        match r {
            Ok(RROResponse::Alias(AliasResponse::Get(v))) => out matches Ok(pairs) && pairs@.len()
                == v@.len() && forall|i: int|
                0 <= i < v@.len() ==> (#[trigger] pairs@[i]).0 == v@[i].collection_name
                    && pairs@[i].1 == v@[i].alias_name,
            Ok(resp) => out == Err::<Vec<(ColName, String)>, RROError>(
                RROError::UnexpectedResponse {
                    expected: OpKind::AliasGet,
                    actual: spec_response_kind(resp),
                },
            ),
            Err(e) => out == Err::<Vec<(ColName, String)>, RROError>(e),
        },
{
    match r {
        Ok(RROResponse::Alias(AliasResponse::Get(v))) => Ok(alias_pairs(v)),
        Ok(resp) => Err(RROError::unexpected(OpKind::AliasGet, response_kind(&resp))),
        Err(e) => Err(e),
    }
}

/// Read a delete-points reply.
pub fn delete_points_reply(r: Result<RROResponse, RROError>) -> (out: Result<UpdateResult, RROError>)
    ensures
        out == (match r {
            Ok(RROResponse::Points(PointsResponse::Delete(u))) => Ok::<UpdateResult, RROError>(u),
            Ok(resp) => Err::<UpdateResult, RROError>(
                RROError::UnexpectedResponse {
                    expected: OpKind::PointsDelete,
                    actual: spec_response_kind(resp),
                },
            ),
            Err(e) => Err::<UpdateResult, RROError>(e),
        }),
{
    match r {
        Ok(RROResponse::Points(PointsResponse::Delete(u))) => Ok(u),
        Ok(resp) => Err(RROError::unexpected(OpKind::PointsDelete, response_kind(&resp))),
        Err(e) => Err(e),
    }
}


/// Read a upsert-points reply.
pub fn upsert_points_reply(r: Result<RROResponse, RROError>) -> (out: Result<UpdateResult, RROError>)
    ensures
        out == (match r {
            Ok(RROResponse::Points(PointsResponse::Upsert(u))) => Ok::<UpdateResult, RROError>(u),
            Ok(resp) => Err::<UpdateResult, RROError>(
                RROError::UnexpectedResponse {
                    expected: OpKind::PointsUpsert,
                    actual: spec_response_kind(resp),
                },
            ),
            Err(e) => Err::<UpdateResult, RROError>(e),
        }),
{
    match r {
        Ok(RROResponse::Points(PointsResponse::Upsert(u))) => Ok(u),
        Ok(resp) => Err(RROError::unexpected(OpKind::PointsUpsert, response_kind(&resp))),
        Err(e) => Err(e),
    }
}


/// Read a update-vectors reply.
pub fn update_vectors_reply(r: Result<RROResponse, RROError>) -> (out: Result<UpdateResult, RROError>)
    ensures
        out == (match r {
            Ok(RROResponse::Points(PointsResponse::UpdateVectors(u))) => Ok::<UpdateResult, RROError>(u),
            Ok(resp) => Err::<UpdateResult, RROError>(
                RROError::UnexpectedResponse {
                    expected: OpKind::PointsUpdateVectors,
                    actual: spec_response_kind(resp),
                },
            ),
            Err(e) => Err::<UpdateResult, RROError>(e),
        }),
{
    match r {
        Ok(RROResponse::Points(PointsResponse::UpdateVectors(u))) => Ok(u),
        Ok(resp) => Err(RROError::unexpected(OpKind::PointsUpdateVectors, response_kind(&resp))),
        Err(e) => Err(e),
    }
}


/// Read a delete-vectors reply.
pub fn delete_vectors_reply(r: Result<RROResponse, RROError>) -> (out: Result<UpdateResult, RROError>)
    ensures
        out == (match r {
            Ok(RROResponse::Points(PointsResponse::DeleteVectors(u))) => Ok::<UpdateResult, RROError>(u),
            Ok(resp) => Err::<UpdateResult, RROError>(
                RROError::UnexpectedResponse {
                    expected: OpKind::PointsDeleteVectors,
                    actual: spec_response_kind(resp),
                },
            ),
            Err(e) => Err::<UpdateResult, RROError>(e),
        }),
{
    match r {
        Ok(RROResponse::Points(PointsResponse::DeleteVectors(u))) => Ok(u),
        Ok(resp) => Err(RROError::unexpected(OpKind::PointsDeleteVectors, response_kind(&resp))),
        Err(e) => Err(e),
    }
}


/// Read a set-payload reply.
pub fn set_payload_reply(r: Result<RROResponse, RROError>) -> (out: Result<UpdateResult, RROError>)
    ensures
        out == (match r {
            Ok(RROResponse::Points(PointsResponse::SetPayload(u))) => Ok::<UpdateResult, RROError>(u),
            Ok(resp) => Err::<UpdateResult, RROError>(
                RROError::UnexpectedResponse {
                    expected: OpKind::PointsSetPayload,
                    actual: spec_response_kind(resp),
                },
            ),
            Err(e) => Err::<UpdateResult, RROError>(e),
        }),
{
    match r {
        Ok(RROResponse::Points(PointsResponse::SetPayload(u))) => Ok(u),
        Ok(resp) => Err(RROError::unexpected(OpKind::PointsSetPayload, response_kind(&resp))),
        Err(e) => Err(e),
    }
}


/// Read a overwrite-payload reply.
pub fn overwrite_payload_reply(r: Result<RROResponse, RROError>) -> (out: Result<UpdateResult, RROError>)
    ensures
        out == (match r {
            Ok(RROResponse::Points(PointsResponse::OverwritePayload(u))) => Ok::<UpdateResult, RROError>(u),
            Ok(resp) => Err::<UpdateResult, RROError>(
                RROError::UnexpectedResponse {
                    expected: OpKind::PointsOverwritePayload,
                    actual: spec_response_kind(resp),
                },
            ),
            Err(e) => Err::<UpdateResult, RROError>(e),
        }),
{
    match r {
        Ok(RROResponse::Points(PointsResponse::OverwritePayload(u))) => Ok(u),
        Ok(resp) => Err(RROError::unexpected(OpKind::PointsOverwritePayload, response_kind(&resp))),
        Err(e) => Err(e),
    }
}


/// Read a delete-payload reply.
pub fn delete_payload_reply(r: Result<RROResponse, RROError>) -> (out: Result<UpdateResult, RROError>)
    ensures
        out == (match r {
            Ok(RROResponse::Points(PointsResponse::DeletePayload(u))) => Ok::<UpdateResult, RROError>(u),
            Ok(resp) => Err::<UpdateResult, RROError>(
                RROError::UnexpectedResponse {
                    expected: OpKind::PointsDeletePayload,
                    actual: spec_response_kind(resp),
                },
            ),
            Err(e) => Err::<UpdateResult, RROError>(e),
        }),
{
    match r {
        Ok(RROResponse::Points(PointsResponse::DeletePayload(u))) => Ok(u),
        Ok(resp) => Err(RROError::unexpected(OpKind::PointsDeletePayload, response_kind(&resp))),
        Err(e) => Err(e),
    }
}


/// Read a clear-payload reply.
pub fn clear_payload_reply(r: Result<RROResponse, RROError>) -> (out: Result<UpdateResult, RROError>)
    ensures
        out == (match r {
            Ok(RROResponse::Points(PointsResponse::ClearPayload(u))) => Ok::<UpdateResult, RROError>(u),
            Ok(resp) => Err::<UpdateResult, RROError>(
                RROError::UnexpectedResponse {
                    expected: OpKind::PointsClearPayload,
                    actual: spec_response_kind(resp),
                },
            ),
            Err(e) => Err::<UpdateResult, RROError>(e),
        }),
{
    match r {
        Ok(RROResponse::Points(PointsResponse::ClearPayload(u))) => Ok(u),
        Ok(resp) => Err(RROError::unexpected(OpKind::PointsClearPayload, response_kind(&resp))),
        Err(e) => Err(e),
    }
}


/// Read a search reply.
pub fn search_points_reply(r: Result<RROResponse, RROError>) -> (out: Result<Vec<u64>, RROError>)
    ensures
        out == (match r {
            Ok(RROResponse::Query(QueryResponse::Search(v))) => Ok::<Vec<u64>, RROError>(v),
            Ok(resp) => Err::<Vec<u64>, RROError>(
                RROError::UnexpectedResponse {
                    expected: OpKind::QuerySearch,
                    actual: spec_response_kind(resp),
                },
            ),
            Err(e) => Err::<Vec<u64>, RROError>(e),
        }),
{
    match r {
        Ok(RROResponse::Query(QueryResponse::Search(v))) => Ok(v),
        Ok(resp) => Err(RROError::unexpected(OpKind::QuerySearch, response_kind(&resp))),
        Err(e) => Err(e),
    }
}


/// Read a recommend reply.
pub fn recommend_points_reply(r: Result<RROResponse, RROError>) -> (out: Result<Vec<u64>, RROError>)
    ensures
        out == (match r {
            Ok(RROResponse::Query(QueryResponse::Recommend(v))) => Ok::<Vec<u64>, RROError>(v),
            Ok(resp) => Err::<Vec<u64>, RROError>(
                RROError::UnexpectedResponse {
                    expected: OpKind::QueryRecommend,
                    actual: spec_response_kind(resp),
                },
            ),
            Err(e) => Err::<Vec<u64>, RROError>(e),
        }),
{
    match r {
        Ok(RROResponse::Query(QueryResponse::Recommend(v))) => Ok(v),
        Ok(resp) => Err(RROError::unexpected(OpKind::QueryRecommend, response_kind(&resp))),
        Err(e) => Err(e),
    }
}


/// Read a universal-query reply.
pub fn query_points_reply(r: Result<RROResponse, RROError>) -> (out: Result<Vec<u64>, RROError>)
    ensures
        out == (match r {
            Ok(RROResponse::Query(QueryResponse::Query(v))) => Ok::<Vec<u64>, RROError>(v),
            Ok(resp) => Err::<Vec<u64>, RROError>(
                RROError::UnexpectedResponse {
                    expected: OpKind::QueryUniversal,
                    actual: spec_response_kind(resp),
                },
            ),
            Err(e) => Err::<Vec<u64>, RROError>(e),
        }),
{
    match r {
        Ok(RROResponse::Query(QueryResponse::Query(v))) => Ok(v),
        Ok(resp) => Err(RROError::unexpected(OpKind::QueryUniversal, response_kind(&resp))),
        Err(e) => Err(e),
    }
}


/// Read a search-batch reply.
pub fn search_points_batch_reply(r: Result<RROResponse, RROError>) -> (out: Result<Vec<Vec<u64>>, RROError>)
    ensures
        out == (match r {
            Ok(RROResponse::Query(QueryResponse::SearchBatch(v))) => Ok::<Vec<Vec<u64>>, RROError>(v),
            Ok(resp) => Err::<Vec<Vec<u64>>, RROError>(
                RROError::UnexpectedResponse {
                    expected: OpKind::QuerySearchBatch,
                    actual: spec_response_kind(resp),
                },
            ),
            Err(e) => Err::<Vec<Vec<u64>>, RROError>(e),
        }),
{
    match r {
        Ok(RROResponse::Query(QueryResponse::SearchBatch(v))) => Ok(v),
        Ok(resp) => Err(RROError::unexpected(OpKind::QuerySearchBatch, response_kind(&resp))),
        Err(e) => Err(e),
    }
}


/// Read a recommend-batch reply.
pub fn recommend_points_batch_reply(r: Result<RROResponse, RROError>) -> (out: Result<Vec<Vec<u64>>, RROError>)
    ensures
        out == (match r {
            Ok(RROResponse::Query(QueryResponse::RecommendBatch(v))) => Ok::<Vec<Vec<u64>>, RROError>(v),
            Ok(resp) => Err::<Vec<Vec<u64>>, RROError>(
                RROError::UnexpectedResponse {
                    expected: OpKind::QueryRecommendBatch,
                    actual: spec_response_kind(resp),
                },
            ),
            Err(e) => Err::<Vec<Vec<u64>>, RROError>(e),
        }),
{
    match r {
        Ok(RROResponse::Query(QueryResponse::RecommendBatch(v))) => Ok(v),
        Ok(resp) => Err(RROError::unexpected(OpKind::QueryRecommendBatch, response_kind(&resp))),
        Err(e) => Err(e),
    }
}


/// Read a grouped-search reply: the groups are unwrapped for the caller.
pub fn search_points_group_by_reply(r: Result<RROResponse, RROError>) -> (out: Result<Vec<PointGroup>, RROError>)
    ensures
        out == (match r {
            Ok(RROResponse::Query(QueryResponse::SearchGroup(gr))) => Ok::<Vec<PointGroup>, RROError>(
                gr.groups,
            ),
            Ok(resp) => Err::<Vec<PointGroup>, RROError>(
                RROError::UnexpectedResponse {
                    expected: OpKind::QuerySearchGroup,
                    actual: spec_response_kind(resp),
                },
            ),
            Err(e) => Err::<Vec<PointGroup>, RROError>(e),
        }),
{
    match r {
        Ok(RROResponse::Query(QueryResponse::SearchGroup(gr))) => Ok(gr.groups),
        Ok(resp) => Err(RROError::unexpected(OpKind::QuerySearchGroup, response_kind(&resp))),
        Err(e) => Err(e),
    }
}


/// Read a grouped-recommend reply: the groups are unwrapped for the caller.
pub fn recommend_points_group_by_reply(r: Result<RROResponse, RROError>) -> (out: Result<Vec<PointGroup>, RROError>)
    ensures
        out == (match r {
            Ok(RROResponse::Query(QueryResponse::RecommendGroup(gr))) => Ok::<Vec<PointGroup>, RROError>(
                gr.groups,
            ),
            Ok(resp) => Err::<Vec<PointGroup>, RROError>(
                RROError::UnexpectedResponse {
                    expected: OpKind::QueryRecommendGroup,
                    actual: spec_response_kind(resp),
                },
            ),
            Err(e) => Err::<Vec<PointGroup>, RROError>(e),
        }),
{
    match r {
        Ok(RROResponse::Query(QueryResponse::RecommendGroup(gr))) => Ok(gr.groups),
        Ok(resp) => Err(RROError::unexpected(OpKind::QueryRecommendGroup, response_kind(&resp))),
        Err(e) => Err(e),
    }
}


/// Read a get-points reply.
pub fn get_points_reply(r: Result<RROResponse, RROError>) -> (out: Result<
    Vec<LocalRecord>,
    RROError,
>)
    ensures
        out == (match r {
            Ok(RROResponse::Points(PointsResponse::Get(v))) => Ok::<Vec<LocalRecord>, RROError>(v),
            Ok(resp) => Err::<Vec<LocalRecord>, RROError>(
                RROError::UnexpectedResponse {
                    expected: OpKind::PointsGet,
                    actual: spec_response_kind(resp),
                },
            ),
            Err(e) => Err::<Vec<LocalRecord>, RROError>(e),
        }),
{
    match r {
        Ok(RROResponse::Points(PointsResponse::Get(v))) => Ok(v),
        Ok(resp) => Err(RROError::unexpected(OpKind::PointsGet, response_kind(&resp))),
        Err(e) => Err(e),
    }
}

/// Read a count-points reply.
pub fn count_points_reply(r: Result<RROResponse, RROError>) -> (out: Result<usize, RROError>)
    ensures
        out == (match r {
            Ok(RROResponse::Points(PointsResponse::Count(c))) => Ok::<usize, RROError>(c),
            Ok(resp) => Err::<usize, RROError>(
                RROError::UnexpectedResponse {
                    expected: OpKind::PointsCount,
                    actual: spec_response_kind(resp),
                },
            ),
            Err(e) => Err::<usize, RROError>(e),
        }),
{
    match r {
        Ok(RROResponse::Points(PointsResponse::Count(c))) => Ok(c),
        Ok(resp) => Err(RROError::unexpected(OpKind::PointsCount, response_kind(&resp))),
        Err(e) => Err(e),
    }
}

/// Read a scroll reply.
pub fn scroll_points_reply(r: Result<RROResponse, RROError>) -> (out: Result<
    ScrollResult,
    RROError,
>)
    ensures
        out == (match r {
            Ok(RROResponse::Points(PointsResponse::Scroll(sr))) => Ok::<ScrollResult, RROError>(
                sr,
            ),
            Ok(resp) => Err::<ScrollResult, RROError>(
                RROError::UnexpectedResponse {
                    expected: OpKind::PointsScroll,
                    actual: spec_response_kind(resp),
                },
            ),
            Err(e) => Err::<ScrollResult, RROError>(e),
        }),
{
    match r {
        Ok(RROResponse::Points(PointsResponse::Scroll(sr))) => Ok(sr),
        Ok(resp) => Err(RROError::unexpected(OpKind::PointsScroll, response_kind(&resp))),
        Err(e) => Err(e),
    }
}

} // verus!
