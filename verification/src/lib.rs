//! Reconstruction of the storage URLs of recorded Twitch broadcasts.
//!
//! A broadcast is stored under a path that holds the first twenty hex
//! characters of the SHA-1 digest of `{username}_{broadcast id}_{timestamp}`.
//! This crate builds the candidate URLs for one timestamp or for a whole range
//! of them, classifies what a probe of such a URL answered, and keeps the state
//! of a sweep in which the first success wins. It performs no network access:
//! the caller probes and reports back.

pub mod text;
pub mod hasher;
pub mod probe;
pub mod urls;
pub mod search;
pub mod availability;
pub mod timestamp;
pub mod config;
pub mod registry;
