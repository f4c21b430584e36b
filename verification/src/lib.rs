//! Verified core of a browser podcast client.
//!
//! The crate models the pieces of the client with real state and invariants:
//! the playback state store with its session-identity guard against stale
//! sampler ticks, the `HH:MM:SS` clock rendering, the shared view state
//! (expanded descriptions, banners, download selections), preparation and
//! classification of the podcast server API calls, and HTML description
//! sanitizing through `ammonia` and `htmlentity`.
//!
//! Network transfer, the DOM, and JSON (de)serialization stay outside: the
//! surrounding application hands plain values in and carries plain values out.

pub mod digits;
pub mod player;
pub mod requests;
pub mod sanitize;
pub mod state;
