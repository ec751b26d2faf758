//! Serialization of typed values into raw SPA pods.
//!
//! A pod is a self-describing, 8-byte-aligned binary container: an 8-byte
//! header (body size and type tag, both native-order `u32`), the body, and
//! zero padding up to the next 8-byte boundary. Pods nest: an array pod holds
//! a shared child header followed by uniform fixed-size element bodies, and a
//! struct pod holds a sequence of complete child pods.
//!
//! The [`serialize::PodSerializer`] writes pods into a [`sink::Sink`], an
//! exclusively owned, seekable byte buffer. Every function that emits bytes
//! carries a contract pinning down exactly which bytes are emitted, so a
//! successful top-level call can only ever produce a structurally valid pod.

pub mod fixed;
pub mod serialize;
pub mod sink;
pub mod wire;
