//! A tick-driven adapter between an application loop and a callback-driven
//! realtime networking engine.
//!
//! The engine itself is never called from here. Every operation of the adapter
//! either validates its input and hands back the request that the engine is to
//! receive (a [`ForeignCall`]), or takes the callbacks that the engine fired
//! during one pump round (as [`ClientEvent`]s and [`RealtimeEvent`]s) and folds
//! them, in order, into the [`SharedState`] that the application polls.
pub mod encoding;
pub mod error;
pub mod event;
pub mod game;
pub mod store;
pub mod client;
pub mod realtime;
pub mod laws;

pub use client::{auth_email, enable_debug_logs, NakamaClient};
pub use encoding::{contains_nul, copy_bytes, copy_bytes_list, encode_c_bytes, encode_c_string};
pub use error::AdapterError;
pub use event::{ClientEvent, ForeignCall, InboundMessage, NakamaSession, RealtimeEvent};
pub use game::NakamaMatch;
pub use realtime::{NakamaRealtimeClient, Phase};
pub use store::SharedState;
