//! A uniform view of object stores: resolving a URL to a store
//! configuration, normalising object keys, summarising streamed object
//! bodies, and scheduling per-object work with bounded concurrency while
//! keeping results in listing order.

pub mod command;
pub mod error;
pub mod factory;
pub mod item;
pub mod location;
pub mod ordering;
pub mod pipeline;
pub mod report;
pub mod zeros;
