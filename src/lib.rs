//! Discovery and control of smart lights over their LAN protocol: a JSON
//! value model, the response parser, the device registry, the decisions of
//! the discovery and command exchanges, and the token state of the music
//! service sign-in.

pub mod command;
pub mod device;
pub mod discovery;
pub mod json;
pub mod parse;
pub mod registry;
pub mod spotify_auth;
