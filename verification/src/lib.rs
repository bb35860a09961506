//! Protocol core of a remote input server: a companion app on the local
//! network drives a virtual pointer, keyboard and gamepad on this host.
//!
//! The crate holds the byte-level codecs of the three transports, the input
//! mode switch, the single-owner session arbiter and the bookkeeping around
//! them. Sockets, tasks and the virtual devices themselves belong to the
//! program built around this library.

pub mod protocol;
pub mod arbiter;
pub mod channel;
pub mod clients;
pub mod codes;
pub mod describe;
pub mod discovery;
pub mod event;
pub mod gamepad;
pub mod input_mode;
pub mod legacy_snapshot;
pub mod logger;
pub mod mouse;
pub mod snapshot;
pub mod stream;
pub mod text;
pub mod xbox360_layout;
