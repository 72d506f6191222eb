//! Core game-hosting and lobby-routing library for a platform that brokers
//! Warcraft III multiplayer matches: the W3GS wire codec, the LAN slot
//! planner, the controller-side game registry, the client-side node registry
//! and lobby-connection state, and the map-checksum import helpers.

pub mod bridge;
pub mod checksum;
pub mod codec;
pub mod constants;
pub mod game;
pub mod lobby;
pub mod node;
pub mod slot;
