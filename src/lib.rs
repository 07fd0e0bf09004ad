//! Store-and-forward relay core: the message lifecycle, the in-memory message
//! store, the per-cycle delivery decisions and the retry sweep.

mod effects;
pub mod config;
pub mod models;
pub mod store;
pub mod forwarder;
pub mod sweeper;
pub mod ingest;
