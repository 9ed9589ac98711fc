//! Logic core of a bridge between a temperature-controlled appliance that
//! speaks a byte-level wire protocol over a short-range radio link and a
//! home-accessory interface with its own value scale.
//!
//! This crate holds everything that can be stated and proved: the value
//! codec, the per-resource worker state machines with their read caches and
//! freshness flags, and the dispatcher's discovery, routing, retry and
//! shutdown rules. The radio I/O, the accessory server and the async
//! plumbing live outside, and hand this crate plain values.

pub mod utils;
pub mod bluetooth_service;
pub mod volcano_factory;
