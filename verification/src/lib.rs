//! Verified core of a feed-translation service.
//!
//! The library models a syndication feed as plain data, decides — per entry
//! title — whether a cached translation can be reused or a translation call
//! is needed, merges the results back in original order, and renders the
//! feed in its original format.  All I/O (feed fetching, cache backends,
//! the translation API) is performed by the surrounding application, which
//! drives the verified orchestrator step by step.

pub mod atom_generator;
pub mod cache;
pub mod feed;
pub mod feed_generator;
pub mod orchestrator;
pub mod rss_generator;
pub mod text;
pub mod translate;
