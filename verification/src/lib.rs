//! Incremental, watermark-based replication between a local task store and a
//! remote relational store.
//!
//! The engine reconciles ten interdependent tables in a fixed dependency
//! order.  Mutable entities are copied by last-writer-wins upsert, append-only
//! logs by insert-if-absent, and junction tables by a full scan with
//! deduplication.  A pass advances its direction's watermark only after every
//! table has been synchronized.

pub mod activity;
pub mod args;
pub mod builder;
pub mod connector;
pub mod create_plan;
pub mod custom_fields;
pub mod dto;
pub mod engine;
pub mod error;
pub mod laws;
pub mod links;
pub mod numtext;
pub mod order;
pub mod phases;
pub mod projects;
pub mod report;
pub mod row;
pub mod schema;
pub mod sync;
pub mod tags;
pub mod task_checks;
pub mod task_rules;
pub mod tasks;
pub mod text;
pub mod update_plan;
pub mod watermark;
