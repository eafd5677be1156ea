//! Threads on top of Web Workers: the thread configuration, the worker entry
//! script, where a spawn is carried out, the answer to workers' messages, the
//! bookkeeping of scoped threads, and the join handles.

mod builder;

pub use builder::{
    lemma_last_setting_wins, lemma_setting_keeps_value, lemma_settings_commute, Builder, BuilderView,
};
mod script;
pub use script::{
    lemma_cached_url_is_reused, lemma_leading_placeholder, lemma_template_without_placeholder,
    lemma_detected_shim_url_gives_same_script, lemma_text_before_placeholder_is_kept, occurs_in, plan_for, replace_all, script_to_publish, shim_url_placeholder, worker_script,
    worker_script_source, ScriptPlan, ScriptPlanView, WorkerScriptCache,
};
mod join;
pub use join::{prepare_thread, JoinError, JoinHandle, ThreadMain};
mod scoped;
pub use scoped::{
    scope_outcome, scope_wait, ScopeCounter, ScopeOutcome, ScopeWait,
    ScopedJoinHandle,
};
mod route;
pub use route::{
    lemma_direct_exactly_on_main_thread, lemma_first_spawner_is_main, lemma_spawn_routes_to_first_spawner, main_after, next_main, route_for, SpawnRoute, SpawnRouter};
mod worker;
pub use worker::{handle_message, BuilderRequest, WorkerMessage};
