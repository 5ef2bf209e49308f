//! Live-simulation and protocol-replication core for a multiplayer scene
//! server.
//!
//! The crate holds an entity store for playable and non-playable actors, a
//! derived-stat pipeline that turns static per-id configuration and
//! level-indexed growth curves into combat statistics, a replication encoder
//! that converts either live component data or persisted player records into
//! the outbound snapshot shape, an appearance-change pipeline, and a
//! processor for administrative commands.
//!
//! Scalar stat and coordinate values are fixed-point: an `i64` counting
//! thousandths of one game unit.

pub mod common;
pub mod command;
pub mod config;
pub mod growth;
pub mod idmap;
pub mod props;
pub mod snapshot;
pub mod store;

pub mod transform;
pub mod avatar;
pub mod monster;
pub mod persistence;
pub mod weapon;

pub use idmap::IdMap;
