//! Audio transport core of a two-party voice call, and the signaling bridge
//! beside it.
//!
//! The transport: the wire codec (`packet`), the jitter buffer (`jitter`),
//! and the decisions of the capture, send, receive and playback paths
//! (`capture`, `send`, `receive`, `playback`) and of the call control task
//! (`control`). `pipeline` states what holds of the path from capture to
//! playback as a whole.
//!
//! The bridge: the registry of users and calls (`registry`) and what each
//! request of the signaling layer does to it (`presence`, `signaling`).
//!
//! The library does no I/O. Sockets, channels, clocks and the audio device
//! belong to the program around it, which hands in plain values and carries
//! out what the library decides. Each function states what it returns and
//! changes as a contract over a mathematical model of its data.

pub mod adapter;
pub mod addr;
pub mod capture;
pub mod control;
pub mod format;
pub mod ids;
pub mod jitter;
pub mod json;
pub mod level;
pub mod packet;
pub mod pipeline;
pub mod playback;
pub mod presence;
pub mod receive;
pub mod registry;
pub mod send;
pub mod signaling;
pub mod text;
pub mod user;
