//! A live audio-capture subsystem: it picks an input device, takes the
//! device's default stream format, encodes captured samples, and persists
//! them as a PCM WAV file over a fixed recording window.
//!
//! Everything that decides or computes is here and verified: device
//! selection ([`device`]), format negotiation and the derived WAV header
//! ([`wav`]), the per-format sample encoder ([`wav`]), and the session
//! lifecycle with its writer-slot invariant ([`session`]). The thin edge
//! around it — host audio streams, the timed wait, file and network I/O —
//! hands plain values in and takes plain values back. [`client`] holds the
//! pure parts of the transcription upload that consumes a finished
//! recording.

pub mod client;
pub mod device;
pub mod session;
pub mod wav;

use vstd::prelude::*;

verus! {

/// One reason a recording attempt can terminally fail.
#[derive(Clone, Copy, Debug, PartialEq, Eq, Structural)]
pub enum RecordingError {
    /// No capture-capable device was found.
    NoDeviceFound,
    /// The chosen device exposes no usable default configuration.
    NoSupportedConfig,
    /// The device's default sample format is outside the encoder's dispatch table.
    UnsupportedSampleFormat,
    /// File creation, write, finalize, or stream build/start failed.
    IoError,
}

} // verus!
