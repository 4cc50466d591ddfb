//! Descriptor-driven synchronization engine.
//!
//! A descriptor file (recognized by its `.yoink` extension) declares one
//! external resource: either a raw byte blob or a binary key-value settings
//! store. Pulling copies the resource's serialized form into the associated
//! data file (the descriptor path with the extension stripped); pushing
//! copies the associated data file back into the resource.
//!
//! This crate holds the engine's logic: the descriptor model and its parser,
//! the path-resolution discipline, the backends as functions on byte
//! contents, and the directory-batch decisions. All filesystem reads and
//! writes stay with the caller, which hands byte contents in and applies the
//! returned contents back out; resource paths are resolved against an
//! explicit base directory, so no process-wide state is ever touched.

mod bytesq;
pub mod config;
pub mod errors;
pub mod filemodel;
pub mod parse;
pub mod paths;
pub mod runner;
pub mod store;
pub mod sync;
