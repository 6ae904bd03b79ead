//! Ownership and delegation rules of an asset registry for a fleet of
//! aircraft, vertiports and vertipads.
//!
//! The registry keeps no records of its own. The records that a unit of
//! work has read from the persistence service come in as a
//! [`snapshot::Snapshot`], and what is to be written comes out as an ordered
//! list of [`store::StoreWrite`]s, one record each. But for the drawing of a
//! fresh identifier, every function is a computation on plain values.
//!
//! - [`identifier`]: identifiers and their canonical text;
//! - [`entity`], [`types`]: the records and the request payloads;
//! - [`mask`], [`update`]: field masks and masked partial updates;
//! - [`group`], [`delegation`]: asset groups, and who controls which asset;
//! - [`registry`], [`registration`], [`amend`], [`removal`]: the operations;
//! - [`snapshot`], [`store`]: the records at hand, and a model of the writes;
//! - [`integrity`], [`links`]: what the writes of an operation leave behind.

pub mod amend;
pub mod delegation;
pub mod entity;
pub mod error;
pub mod group;
pub mod identifier;
pub mod integrity;
pub mod links;
pub mod mask;
pub mod registration;
pub mod registry;
pub mod removal;
pub mod snapshot;
pub mod store;
pub mod types;
pub mod update;
