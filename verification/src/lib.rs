//! Core of a media-presence mirror: it tracks the playback session last seen
//! on a media server, decides when to fetch fresh state (polling vs. push
//! signals), detects material changes (including seeks, via drift), renders
//! the rich-presence payload, and drives the lifecycle of the RPC link to the
//! chat client. All I/O is performed by the surrounding shell; this crate
//! holds the decision logic, verified.

pub mod digits;
pub mod engine;
pub mod laws;
pub mod models;
pub mod plex;
pub mod presence;
pub mod shell;
pub mod status;
pub mod strategy;
pub mod tick;
pub mod tracker;
