//! Control-surface management for small USB panels with LCD keys, rotary
//! encoders and touch zones: device classification, report decoding, image
//! preparation, and the decision tables of sessions, watcher and dispatcher.

pub mod commands;
pub mod dispatcher;
pub mod identity;
pub mod inputs;
pub mod pipeline;
pub mod registry;
pub mod session;
pub mod table;
pub mod watcher;
