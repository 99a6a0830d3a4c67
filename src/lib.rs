//! A reconnecting event-stream pipeline and a backend-agnostic channel layer.
//!
//! `backoff` computes the delays between failed connection attempts, `stream`
//! holds the stages that rewrite a run of connections into one run of events,
//! `exchange_stream` turns one connection's raw frames into results, and
//! `channel` hands the events on to other threads or tasks.

pub mod backoff;
pub mod channel;
pub mod exchange;
pub mod exchange_stream;
pub mod execution;
pub mod parser;
pub mod route;
pub mod stream;
pub mod trace;
pub mod transformer;
