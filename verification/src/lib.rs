//! Decoder and fault-classification core for the cyclic telemetry block of a
//! ClipX measurement amplifier.
//!
//! Each polling cycle the fieldbus master hands over a byte buffer holding a
//! packed device-status word, a packed measurement-status word and a run of
//! single-precision signal values, together with the elapsed time.  This
//! crate turns that buffer into either a validated measurement record or a
//! typed error; the transport, the device lifecycle and the export of the
//! record stay outside.
//!
//! Signal values travel through this crate as their raw IEEE-754 bit
//! patterns (`u32`); the caller reinterprets them as `f32` at the boundary.

pub mod fault;
pub mod measurement;
pub mod signal;
pub mod status;
pub mod words;
