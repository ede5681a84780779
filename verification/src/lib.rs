//! An embedded request/response bridge: a synchronous caller drives a
//! stateful engine that lives on its own dedicated execution context.
//!
//! The library models and verifies the bridge's core: the dispatch
//! protocol (typed requests correlated with single-use reply slots),
//! the worker lifecycle state machine (accepting, draining, reclaiming
//! the engine, terminating), the timeout and error mapping every caller
//! observes, and an in-memory engine that executes each request with an
//! exact contract. The asynchronous plumbing (channels, spawned tasks,
//! timers) lives outside the library and feeds plain values into the
//! verified decision functions.

mod client;
mod engine;
mod error;
mod instance;
mod ops;
mod reply_slot;
mod worker;

pub use client::clear_payload_reply;
pub use client::collection_exists_reply;
pub use client::count_points_reply;
pub use client::create_alias_reply;
pub use client::create_collection_reply;
pub use client::delete_alias_reply;
pub use client::delete_collection_reply;
pub use client::delete_payload_reply;
pub use client::delete_points_reply;
pub use client::delete_vectors_reply;
pub use client::disposal_poll_action;
pub use client::get_aliases_reply;
pub use client::get_collection_reply;
pub use client::get_points_reply;
pub use client::list_aliases_reply;
pub use client::list_collections_reply;
pub use client::overwrite_payload_reply;
pub use client::query_points_reply;
pub use client::recommend_points_batch_reply;
pub use client::recommend_points_group_by_reply;
pub use client::recommend_points_reply;
pub use client::rename_alias_reply;
pub use client::scroll_points_reply;
pub use client::search_points_batch_reply;
pub use client::search_points_group_by_reply;
pub use client::search_points_reply;
pub use client::set_payload_reply;
pub use client::update_collection_reply;
pub use client::update_vectors_reply;
pub use client::upsert_points_reply;
pub use client::settle;
pub use client::DisposalAction;
pub use client::RroClient;
pub use client::TerminationPoll;
pub use client::DEFAULT_TIMEOUT_MS;
pub use client::HEALTH_CHECK_TIMEOUT_MS;
pub use client::SHUTDOWN_POLL_INTERVAL_MS;
pub use client::SHUTDOWN_TIMEOUT_MS;
pub use engine::col_wf;
pub use engine::has_alias;
pub use engine::has_col;
pub use engine::ids_distinct;
pub use engine::kv_distinct;
pub use engine::point_wf;
pub use engine::CollectionEntry;
pub use engine::EngineState;
pub use error::EngineError;
pub use error::OpKind;
pub use error::RROError;
pub use instance::dispatch_post;
pub use instance::execute;
pub use instance::fresh_client;
pub use instance::lemma_dispatch_variant_integrity;
pub use instance::request_kind;
pub use instance::response_kind;
pub use instance::response_matches;
pub use instance::spec_response_kind;
pub use instance::EngineConfig;
pub use instance::RROInstance;
pub use instance::RRORequest;
pub use instance::RRO_CHANNEL_BUFFER;
pub use instance::RROResponse;
pub use instance::RROResult;
pub use ops::collections::alias_post;
pub use ops::collections::collection_post;
pub use ops::collections::create_alias_post;
pub use ops::collections::create_collection_post;
pub use ops::collections::delete_alias_post;
pub use ops::collections::delete_collection_post;
pub use ops::collections::collection_exists_post;
pub use ops::collections::get_aliases_post;
pub use ops::collections::get_collection_post;
pub use ops::collections::handle_alias;
pub use ops::collections::handle_collection;
pub use ops::collections::keeps_other;
pub use ops::collections::list_aliases_post;
pub use ops::collections::list_collections_post;
pub use ops::collections::of_collection;
pub use ops::collections::rename_alias_post;
pub use ops::collections::update_collection_post;
pub use ops::collections::AliasDescription;
pub use ops::collections::AliasRequest;
pub use ops::collections::AliasResponse;
pub use ops::collections::CollectionInfo;
pub use ops::collections::CollectionRequest;
pub use ops::collections::CollectionResponse;
pub use ops::collections::Distance;
pub use ops::collections::UpdateCollection;
pub use ops::collections::VectorConfig;
pub use ops::points::all_points_ok;
pub use ops::points::all_vectors_ok;
pub use ops::points::apply_pv_all;
pub use ops::points::apply_pv_one;
pub use ops::points::clear_payload_post;
pub use ops::points::col_points_updated;
pub use ops::points::completed;
pub use ops::points::count_points_post;
pub use ops::points::delete_payload_post;
pub use ops::points::delete_points_post;
pub use ops::points::delete_vectors_post;
pub use ops::points::get_points_post;
pub use ops::points::handle_points;
pub use ops::points::has_pt;
pub use ops::points::kv_at;
pub use ops::points::kv_has;
pub use ops::points::merge_kv;
pub use ops::points::merge_one;
pub use ops::points::next_seq;
pub use ops::points::not_sel_ids;
pub use ops::points::overwrite_payload_post;
pub use ops::points::payload_cleared;
pub use ops::points::payload_keys_removed;
pub use ops::points::payload_merged;
pub use ops::points::payload_overwritten;
pub use ops::points::point_ok;
pub use ops::points::points_post;
pub use ops::points::pt_at;
pub use ops::points::scroll_points_post;
pub use ops::points::sel_ids;
pub use ops::points::set_payload_post;
pub use ops::points::str_in;
pub use ops::points::update_vectors_post;
pub use ops::points::upsert_all;
pub use ops::points::upsert_one;
pub use ops::points::upsert_points_post;
pub use ops::points::vectors_cleared;
pub use ops::points::LocalRecord;
pub use ops::points::PayloadEntry;
pub use ops::points::PointRecord;
pub use ops::points::PointVectors;
pub use ops::points::PointsRequest;
pub use ops::points::PointsResponse;
pub use ops::points::ScrollQuery;
pub use ops::points::ScrollResult;
pub use ops::points::UpdateResult;
pub use ops::points::UpdateStatus;
pub use ops::query::all_recommends_ok;
pub use ops::query::all_searches_ok;
pub use ops::query::handle_query;
pub use ops::query::head_groups;
pub use ops::query::head_ids;
pub use ops::query::query_post;
pub use ops::query::recommend_batch_post;
pub use ops::query::recommend_group_post;
pub use ops::query::recommend_post;
pub use ops::query::search_batch_post;
pub use ops::query::search_group_post;
pub use ops::query::search_post;
pub use ops::query::universal_query_post;
pub use ops::query::window_ids;
pub use ops::query::GroupsResult;
pub use ops::query::PointGroup;
pub use ops::query::QueryRequest;
pub use ops::query::QueryResponse;
pub use ops::query::RecommendGroupQuery;
pub use ops::query::RecommendQuery;
pub use ops::query::SearchGroupQuery;
pub use ops::query::SearchQuery;
pub use ops::query::UniversalQuery;
pub use ops::ColName;
pub use reply_slot::abandon_spec;
pub use reply_slot::lemma_at_most_one_write;
pub use reply_slot::lemma_write_after_abandon_discards;
pub use reply_slot::take_spec;
pub use reply_slot::write_spec;
pub use reply_slot::ReplySlot;
pub use worker::abandoned_from;
pub use worker::lemma_timeout_discards_reply;
pub use worker::closed_from;
pub use worker::drained_from;
pub use worker::finished_from;
pub use worker::lemma_no_phase_is_skipped;
pub use worker::lemma_no_send_after_close;
pub use worker::lemma_reclaim_waits_for_tasks;
pub use worker::lemma_signal_implies_quiescent;
pub use worker::lemma_unhealthy_after_close;
pub use worker::phase_rank;
pub use worker::reclaimed_from;
pub use worker::sent_from;
pub use worker::spawned_from;
pub use worker::took_from;
pub use worker::Bridge;
pub use worker::Message;
pub use worker::Phase;
pub use worker::SendOutcome;
pub use reply_slot::SlotState;
