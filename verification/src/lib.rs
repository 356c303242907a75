//! Local-first synchronisation for a document client: an offline mutation
//! queue and the engine that reconciles it with a remote service.

use vstd::prelude::*;

pub mod auth;
pub mod content;
pub mod did;
pub mod documents;
pub mod engine;
pub mod files;
pub mod invariants;
pub mod json;
pub mod laws;
pub mod models;
pub mod pull;
pub mod push;
pub mod queue;
pub mod rows;
pub mod sequences;
pub mod store;
pub mod strings;
pub mod system;

verus! {

/// What the commands work on: the local store and the sync engine.
pub struct AppState {
    pub db: store::LocalStore,
    pub sync: engine::SyncEngine,
}

} // verus!
