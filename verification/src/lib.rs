//! Coordination of managed-agent transfers: moving one agent identity from a
//! source executor to a target executor under a fenced revision and epoch.

pub mod agent_transfer;
pub mod coordinator;
pub mod coordinator_handler;
pub mod coordinator_route;
pub mod delivery_queue;
pub mod delivery_worker;
pub mod keys;
pub mod pairs;
pub mod signed_event;
pub mod target_bootstrap;
pub mod text;
pub mod transfer_bootstrap;
pub mod transfer_laws;
pub mod transfer_store;
pub mod transfer_supervisor;
pub mod wire;
pub mod worker_table;
