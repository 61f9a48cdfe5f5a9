//! A paginated, concurrency-bounded search client for a remote search API:
//! response classification, page scheduling, request addresses and the
//! command-line helpers around them.

pub mod response;
pub mod schedule;
pub mod searcher;
pub mod text;
pub mod cli;
pub mod lemmas;
