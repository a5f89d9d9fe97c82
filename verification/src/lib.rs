//! Client-side protocol logic for a Lightning node daemon's JSON/HTTP
//! administrative API: target resolution, response-envelope classification,
//! health-check aggregation, event consumption, payment waiting, and
//! dual-mode rendering.

pub mod checks;
pub mod config;
pub mod confirm;
pub mod dto;
pub mod envelope;
pub mod events;
pub mod fmt;
pub mod paywait;
pub mod rows;
pub mod strutil;
pub mod theme;
