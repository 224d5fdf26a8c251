//! Device automation engine of a home-automation daemon: sensor boards are
//! read, rules decide what relays and smart lights do, timers switch them off
//! again, and the resulting output bytes and notices go back to the caller.
//!
//! Times are milliseconds on the caller's monotonic clock.
pub mod cesspool;
pub mod control;
pub mod device;
pub mod messages;
pub mod peripheral;
pub mod rules;
pub mod text;
pub mod transition;
