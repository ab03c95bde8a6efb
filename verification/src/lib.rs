//! Verified core of the WSPR spot visualizer: spot filters, Maidenhead grid
//! decoding, the band table, SQL query construction, the query cache, and
//! the client-side live-stream and filter-panel state machines.
pub mod text;
pub mod models;
pub mod cache;
pub mod db;
pub mod config;
pub mod live;
pub mod display;
pub mod panel;
pub mod debounce;
pub mod server;
