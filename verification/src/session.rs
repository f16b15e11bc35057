//! The recording-session lifecycle: a state machine that negotiates a
//! device and format, opens the in-memory WAV writer, accepts sample
//! buffers while streaming, and finalizes into a complete file image.
//!
//! The unverified edge drives this machine: it enumerates devices, builds
//! and starts the host audio stream, sleeps out the fixed recording
//! window, and writes the finalized bytes to disk. The callback thread's
//! only access is `append`, which never changes the status; the invoking
//! thread's finalize runs only after the stream is gone, so no sample
//! write can be observed after finalization begins.

use vstd::prelude::*;

use crate::device::{
    has_capture_device, select_input_device, selected_device, DeviceDescriptor, StreamConfig,
};
use crate::wav::{spec_wav_spec, wav_bytes, wav_spec_from_config, SampleBuffer, WavBuffer, WavSpec};
use crate::wav::{lemma_derived_spec_valid, lemma_wav_well_formed, wav_well_formed};
use crate::RecordingError;

verus! {

/// Where a recording attempt stands. `Completed` and `Failed` are terminal.
#[derive(Clone, Copy, Debug, PartialEq, Eq, Structural)]
pub enum SessionStatus {
    Idle,
    Negotiating,
    Streaming,
    Finalizing,
    Completed,
    Failed,
}

/// One recording attempt: the status value, the negotiated configuration,
/// the writer slot (present only while a file is open), and a flag that
/// stands for the host stream handle the edge holds.
pub struct RecordingSession {
    pub status: SessionStatus,
    pub error: Option<RecordingError>,
    pub config: Option<StreamConfig>,
    pub writer: Option<WavBuffer>,
    pub stream_active: bool,
}

impl RecordingSession {
    /// True in the two terminal states.
    pub open spec fn terminal(self) -> bool {
        self.status is Completed || self.status is Failed
    }

    /// The session invariant: the writer slot is non-empty exactly while
    /// Streaming or Finalizing, the stream handle exists exactly while
    /// Streaming, an error is recorded exactly when Failed, and while the
    /// writer is open it is well-formed and matches the negotiated
    /// configuration's derived WAV spec.
    pub open spec fn wf(self) -> bool {
        &&& (self.writer is Some <==> (self.status is Streaming || self.status is Finalizing))
        &&& (self.stream_active <==> self.status is Streaming)
        &&& (self.error is Some <==> self.status is Failed)
        &&& ((self.status is Streaming || self.status is Finalizing) ==> {
            &&& self.config matches Some(c)
            &&& c.spec_usable()
            &&& c.sample_format.spec_is_supported()
            &&& self.writer->0.wf()
            &&& self.writer->0.wav_spec == spec_wav_spec(c)
        })
    }

    /// A fresh, idle session: nothing negotiated, no writer, no stream.
    pub fn new() -> (r: RecordingSession)
        ensures
            r.wf(),
            r.status is Idle,
            r.error is None,
            r.config is None,
            r.writer is None,
            !r.stream_active,
    {
        RecordingSession {
            status: SessionStatus::Idle,
            error: None,
            config: None,
            writer: None,
            stream_active: false,
        }
    }

    pub fn status(&self) -> (s: SessionStatus)
        ensures
            s == self.status,
    {
        self.status
    }

    /// A start request moves an idle session into negotiation.
    pub fn begin(&mut self)
        requires
            old(self).wf(),
            old(self).status is Idle,
        ensures
            final(self).wf(),
            final(self).status is Negotiating,
            final(self).error is None,
            final(self).config == old(self).config,
            final(self).writer is None,
            !final(self).stream_active,
    {
        self.status = SessionStatus::Negotiating;
    }

    /// Records a terminal failure from any non-terminal state: the writer
    /// slot is emptied and the stream handle released, so nothing is left
    /// open. Used for negotiation errors, stream build/start failure, and
    /// finalize failure.
    pub fn fail(&mut self, error: RecordingError)
        requires
            old(self).wf(),
            !old(self).terminal(),
        ensures
            final(self).wf(),
            final(self).status is Failed,
            final(self).error == Some(error),
            final(self).config == old(self).config,
            final(self).writer is None,
            !final(self).stream_active,
    {
        self.writer = None;
        self.stream_active = false;
        self.error = Some(error);
        self.status = SessionStatus::Failed;
    }

    /// Selects the first capture-capable device and takes its default
    /// configuration. Fails the session with `NoDeviceFound` when no device
    /// is capture-capable, with `NoSupportedConfig` when the chosen default
    /// configuration is not usable (zero channels or rate, or a byte rate
    /// beyond the WAV header's fields), and with `UnsupportedSampleFormat`
    /// when its sample format is outside the encoder's dispatch table; on
    /// success the session stays in negotiation with the configuration
    /// stored, ready for the stream to be built.
    pub fn negotiate(&mut self, devices: Vec<DeviceDescriptor>) -> (r: Result<
        StreamConfig,
        RecordingError,
    >)
        requires
            old(self).wf(),
            old(self).status is Negotiating,
        ensures
            final(self).wf(),
            final(self).writer is None,
            !final(self).stream_active,
            !has_capture_device(devices@) ==> {
                &&& r == Err::<StreamConfig, RecordingError>(RecordingError::NoDeviceFound)
                &&& final(self).status is Failed
                &&& final(self).error == Some(RecordingError::NoDeviceFound)
            },
            has_capture_device(devices@) ==> {
                let c = spec_negotiated_config(devices@);
                &&& (!c.spec_usable() ==> {
                    &&& r == Err::<StreamConfig, RecordingError>(RecordingError::NoSupportedConfig)
                    &&& final(self).status is Failed
                    &&& final(self).error == Some(RecordingError::NoSupportedConfig)
                })
                &&& (c.spec_usable() && !c.sample_format.spec_is_supported() ==> {
                    &&& r == Err::<StreamConfig, RecordingError>(
                        RecordingError::UnsupportedSampleFormat,
                    )
                    &&& final(self).status is Failed
                    &&& final(self).error == Some(RecordingError::UnsupportedSampleFormat)
                })
                &&& (c.spec_usable() && c.sample_format.spec_is_supported() ==> {
                    &&& r == Ok::<StreamConfig, RecordingError>(c)
                    &&& final(self).status is Negotiating
                    &&& final(self).config == Some(c)
                    &&& final(self).error is None
                })
            },
    {
        let ghost devs = devices@;
        proof {
            crate::device::lemma_capture_index(devs);
        }
        match select_input_device(devices) {
            Err(e) => {
                self.fail(e);
                Err(e)
            },
            Ok(d) => {
                proof {
                    assert(d == selected_device(devs));
                    assert(d.spec_capture_capable());
                }
                match crate::device::negotiate(&d) {
                    Err(e) => {
                        self.fail(e);
                        Err(e)
                    },
                    Ok(c) => {
                        if !c.usable() {
                            self.fail(RecordingError::NoSupportedConfig);
                            Err(RecordingError::NoSupportedConfig)
                        } else if !c.sample_format.is_supported() {
                            self.fail(RecordingError::UnsupportedSampleFormat);
                            Err(RecordingError::UnsupportedSampleFormat)
                        } else {
                            self.config = Some(c);
                            Ok(c)
                        }
                    },
                }
            },
        }
    }

    /// Opens the WAV writer for the negotiated configuration's derived
    /// spec and marks the stream as running; the edge builds and starts
    /// the actual host stream alongside this step.
    pub fn start_streaming(&mut self)
        requires
            old(self).wf(),
            old(self).status is Negotiating,
            old(self).config matches Some(c) && c.spec_usable()
                && c.sample_format.spec_is_supported(),
        ensures
            final(self).wf(),
            final(self).status is Streaming,
            final(self).error is None,
            final(self).config == old(self).config,
            final(self).stream_active,
            final(self).writer matches Some(w) && w.wav_spec == spec_wav_spec(
                old(self).config->0,
            ) && w.data@ == Seq::<u8>::empty(),
    {
        let c = self.config.unwrap();
        proof {
            lemma_derived_spec_valid(c);
        }
        let wav_spec = wav_spec_from_config(&c);
        self.writer = Some(WavBuffer::new(wav_spec));
        self.stream_active = true;
        self.status = SessionStatus::Streaming;
    }

    /// The callback path: append one buffer of captured samples. Write-only
    /// — it never changes the status. Outside Streaming, or when the writer
    /// would not accept the buffer, the buffer is dropped whole and the
    /// session is unchanged; this is the deliberate lossy best-effort
    /// policy, not an error.
    pub fn append(&mut self, buf: &SampleBuffer) -> (accepted: bool)
        requires
            old(self).wf(),
        ensures
            final(self).wf(),
            final(self).status == old(self).status,
            final(self).error == old(self).error,
            final(self).config == old(self).config,
            final(self).stream_active == old(self).stream_active,
            old(self).status !is Streaming ==> !accepted && final(self).writer
                == old(self).writer,
            old(self).status is Streaming ==> {
                &&& accepted == old(self).writer->0.accepts(*buf)
                &&& final(self).writer matches Some(w)
                &&& w.wav_spec == old(self).writer->0.wav_spec
                &&& (accepted ==> w.data@ == old(self).writer->0.data@ + buf.spec_data())
                &&& (!accepted ==> w.data@ == old(self).writer->0.data@)
            },
    {
        if !matches!(self.status, SessionStatus::Streaming) {
            return false;
        }
        match &mut self.writer {
            Some(w) => w.append(buf),
            None => false,
        }
    }

    /// The fixed recording window has elapsed: the edge drops the host
    /// stream (halting future callbacks) and this step releases the stream
    /// handle, strictly before the writer slot can be taken for
    /// finalization.
    pub fn begin_finalize(&mut self)
        requires
            old(self).wf(),
            old(self).status is Streaming,
        ensures
            final(self).wf(),
            final(self).status is Finalizing,
            final(self).error is None,
            final(self).config == old(self).config,
            final(self).writer == old(self).writer,
            !final(self).stream_active,
    {
        self.stream_active = false;
        self.status = SessionStatus::Finalizing;
    }

    /// Takes the writer slot and finalizes it: the complete WAV image for
    /// everything the writer accepted, always structurally sound. The edge
    /// then persists these bytes; if that write fails it records the
    /// failure with `fail` instead of calling this.
    pub fn finalize_success(&mut self) -> (bytes: Vec<u8>)
        requires
            old(self).wf(),
            old(self).status is Finalizing,
        ensures
            final(self).wf(),
            final(self).status is Completed,
            final(self).error is None,
            final(self).config == old(self).config,
            final(self).writer is None,
            !final(self).stream_active,
            bytes@ == wav_bytes(old(self).writer->0.wav_spec, old(self).writer->0.data@),
            wav_well_formed(bytes@),
    {
        let w = self.writer.take().unwrap();
        self.status = SessionStatus::Completed;
        proof {
            lemma_wav_well_formed(w.wav_spec, w.data@);
        }
        w.finalize()
    }
}

/// After any terminal state the writer slot is empty and the stream handle
/// is released: nothing is left open, so a subsequent recording can reopen
/// the same output path without conflict.
pub proof fn lemma_terminal_releases_resources(s: RecordingSession)
    requires
        s.wf(),
        s.terminal(),
    ensures
        s.writer is None,
        !s.stream_active,
{
}

/// The configuration negotiation settles on: the selected device's default.
pub open spec fn spec_negotiated_config(devs: Seq<DeviceDescriptor>) -> StreamConfig {
    selected_device(devs).default_config->0
}

/// The data chunk that offering `bufs` in order to a fresh writer with
/// spec `s` accumulates: each buffer is appended whole when its format
/// matches and the grown file still fits the header's size fields, and
/// dropped whole otherwise.
pub open spec fn accepted_data(s: WavSpec, bufs: Seq<SampleBuffer>) -> Seq<u8>
    decreases bufs.len(),
{
    if bufs.len() == 0 {
        Seq::empty()
    } else {
        let prev = accepted_data(s, bufs.drop_last());
        let b = bufs.last();
        if b.spec_format() == s.spec_expected_format() && 44 + prev.len() + b.spec_data().len()
            <= u32::MAX {
            prev + b.spec_data()
        } else {
            prev
        }
    }
}

/// Total number of samples across a sequence of delivered buffers.
pub open spec fn total_samples(bufs: Seq<SampleBuffer>) -> int
    decreases bufs.len(),
{
    if bufs.len() == 0 {
        0
    } else {
        total_samples(bufs.drop_last()) + bufs.last().spec_len()
    }
}

pub proof fn lemma_total_samples_nonneg(bufs: Seq<SampleBuffer>)
    ensures
        total_samples(bufs) >= 0,
    decreases bufs.len(),
{
    if bufs.len() > 0 {
        lemma_total_samples_nonneg(bufs.drop_last());
    }
}

/// Frames stored in a finalized file's data chunk: data bytes per frame
/// size (one sample per channel).
pub open spec fn frame_count(s: WavSpec, data: Seq<u8>) -> int {
    data.len() as int / s.spec_block_align_int()
}

/// For a run in which every delivered buffer matches the negotiated format
/// and the whole recording fits the header's size fields — no buffer is
/// dropped — the finalized data chunk holds exactly the delivered samples:
/// its byte length is the total sample count times the sample size, and
/// its frame count is that total divided by the channel count. With a
/// lossless delivery of `rate * duration` frames this is exactly the
/// expected frame count; contention drops only ever remove whole buffers
/// from the total.
pub proof fn lemma_no_drop_sample_count(s: WavSpec, bufs: Seq<SampleBuffer>)
    requires
        s.valid(),
        forall|i: int|
            0 <= i < bufs.len() ==> (#[trigger] bufs[i].spec_format())
                == s.spec_expected_format(),
        44 + total_samples(bufs) * s.spec_bytes_per_sample() <= u32::MAX,
    ensures
        accepted_data(s, bufs).len() == total_samples(bufs) * s.spec_bytes_per_sample(),
        frame_count(s, accepted_data(s, bufs)) == total_samples(bufs) / (s.channels as int),
    decreases bufs.len(),
{
    let bps = s.spec_bytes_per_sample();
    let t = total_samples(bufs);
    lemma_total_samples_nonneg(bufs);
    if bufs.len() == 0 {
        assert(accepted_data(s, bufs).len() == 0);
        assert(0 as int % bps == 0) by (nonlinear_arith)
            requires
                bps >= 1,
        ;
        lemma_frame_count_exact(s, 0);
    } else {
        let prev = bufs.drop_last();
        let b = bufs.last();
        let tp = total_samples(prev);
        lemma_total_samples_nonneg(prev);
        assert(b.spec_len() >= 0);
        assert(tp * bps <= t * bps && b.spec_len() * bps <= t * bps) by (nonlinear_arith)
            requires
                0 <= tp,
                0 <= b.spec_len(),
                t == tp + b.spec_len(),
                bps >= 1,
        ;
        assert(forall|i: int|
            0 <= i < prev.len() ==> (#[trigger] prev[i].spec_format())
                == s.spec_expected_format());
        lemma_no_drop_sample_count(s, prev);
        b.lemma_data_len();
        s.lemma_expected_sample_size();
        assert(b.spec_format() == s.spec_expected_format());
        assert(b.spec_data().len() == b.spec_len() * bps);
        assert(tp * bps + b.spec_len() * bps == t * bps) by (nonlinear_arith)
            requires
                t == tp + b.spec_len(),
        ;
        assert(accepted_data(s, bufs).len() == t * bps);
        lemma_frame_count_exact(s, t);
    }
}

/// A data chunk of exactly `t` samples spans `t / channels` frames.
proof fn lemma_frame_count_exact(s: WavSpec, t: int)
    requires
        s.valid(),
        0 <= t,
    ensures
        (t * s.spec_bytes_per_sample()) / s.spec_block_align_int() == t / (s.channels as int),
{
    let bps = s.spec_bytes_per_sample();
    let ch = s.channels as int;
    assert((t * bps) / (ch * bps) == t / ch) by (nonlinear_arith)
        requires
            bps >= 1,
            ch >= 1,
            0 <= t,
    ;
}

/// The decision core of one complete fixed-duration recording pass, with
/// the outside world handed in as plain values: the devices as enumerated,
/// and the sample buffers in the order the capture callbacks delivered
/// them. Returns exactly the error the negotiation rules dictate, or the
/// finalized WAV image of every accepted buffer.
pub fn run_recording(devices: Vec<DeviceDescriptor>, buffers: &Vec<SampleBuffer>) -> (r: Result<
    Vec<u8>,
    RecordingError,
>)
    ensures
        !has_capture_device(devices@) ==> r == Err::<Vec<u8>, RecordingError>(
            RecordingError::NoDeviceFound,
        ),
        has_capture_device(devices@) ==> {
            let c = spec_negotiated_config(devices@);
            &&& (!c.spec_usable() ==> r == Err::<Vec<u8>, RecordingError>(
                RecordingError::NoSupportedConfig,
            ))
            &&& (c.spec_usable() && !c.sample_format.spec_is_supported() ==> r == Err::<
                Vec<u8>,
                RecordingError,
            >(RecordingError::UnsupportedSampleFormat))
            &&& (c.spec_usable() && c.sample_format.spec_is_supported() ==> {
                &&& r matches Ok(bytes)
                &&& bytes@ == wav_bytes(
                    spec_wav_spec(c),
                    accepted_data(spec_wav_spec(c), buffers@),
                )
                &&& wav_well_formed(bytes@)
            })
        },
{
    let mut session = RecordingSession::new();
    session.begin();
    let ghost devs = devices@;
    let cfg = match session.negotiate(devices) {
        Ok(c) => c,
        Err(e) => {
            return Err(e);
        },
    };
    session.start_streaming();
    let ghost wspec = spec_wav_spec(cfg);
    let n = buffers.len();
    let mut i: usize = 0;
    while i < n
        invariant
            n == buffers@.len(),
            0 <= i <= n,
            session.wf(),
            session.status is Streaming,
            session.writer matches Some(w) && w.wav_spec == wspec && w.data@ == accepted_data(
                wspec,
                buffers@.take(i as int),
            ),
        decreases n - i,
    {
        session.append(&buffers[i]);
        proof {
            assert(buffers@.take(i + 1 as int).drop_last() =~= buffers@.take(i as int));
            assert(buffers@.take(i + 1 as int).last() == buffers@[i as int]);
        }
        i += 1;
    }
    proof {
        assert(buffers@.take(n as int) =~= buffers@);
    }
    session.begin_finalize();
    let bytes = session.finalize_success();
    Ok(bytes)
}

} // verus!
