//! A peer-to-peer duplex voice link: the verified core.
//!
//! The library holds the logic of the streaming pipeline — the wire codec
//! that quantizes audio samples into datagram bytes, the packet framing,
//! the per-callback decisions of the capture and playback paths, and the
//! shared run-state that coordinates shutdown.  Device callbacks, the UDP
//! socket and signal delivery live outside and hand the library plain
//! values.

pub mod codec;
pub mod lifecycle;
pub mod pipeline;
pub mod wire;
