//! A chat-relay bot's dispatch engine: inbound messages are matched against
//! registered patterns, the handlers' outcomes are merged, and at most one
//! reply per subscriber goes back to the transport.

pub mod collate;
pub mod error;
pub mod message;
pub mod pattern;
pub mod text;
pub mod bot;
pub mod regexmatch;
pub mod cache;
pub mod duration;
pub mod json;
pub mod services;
