//! Device selection and stream-format negotiation.
//!
//! A recording request first enumerates the capture devices the host audio
//! subsystem exposes (done by the unverified edge, which hands the result in
//! as plain `DeviceDescriptor` values), picks the first capture-capable one,
//! and reads its default stream configuration.

use vstd::prelude::*;

use crate::RecordingError;

verus! {

/// The numeric representation of one captured sample, as the host reports it.
///
/// Only the first four variants are in the encoder's dispatch table; any
/// other host format is mapped to `Unsupported` at the boundary.
#[derive(Clone, Copy, Debug, PartialEq, Eq, Structural)]
pub enum SampleFormat {
    Int8,
    Int16,
    Int32,
    Float32,
    Unsupported,
}

impl SampleFormat {
    /// True exactly for the formats the sample encoder can handle.
    pub open spec fn spec_is_supported(self) -> bool {
        self !is Unsupported
    }

    /// True for floating-point sample representations.
    pub open spec fn spec_is_float(self) -> bool {
        self is Float32
    }

    /// Size in bytes of one encoded sample of this format.
    pub open spec fn spec_sample_size(self) -> u32 {
        match self {
            SampleFormat::Int8 => 1,
            SampleFormat::Int16 => 2,
            SampleFormat::Int32 => 4,
            SampleFormat::Float32 => 4,
            SampleFormat::Unsupported => 0,
        }
    }

    pub fn is_supported(&self) -> (r: bool)
        ensures
            r == self.spec_is_supported(),
    {
        !matches!(self, SampleFormat::Unsupported)
    }

    pub fn is_float(&self) -> (r: bool)
        ensures
            r == self.spec_is_float(),
    {
        matches!(self, SampleFormat::Float32)
    }

    pub fn sample_size(&self) -> (n: u32)
        ensures
            n == self.spec_sample_size(),
    {
        match self {
            SampleFormat::Int8 => 1,
            SampleFormat::Int16 => 2,
            SampleFormat::Int32 => 4,
            SampleFormat::Float32 => 4,
            SampleFormat::Unsupported => 0,
        }
    }
}

/// A stream configuration as negotiated with a device: channel count,
/// sample rate in Hz, and sample format. Immutable once negotiated.
#[derive(Clone, Copy, Debug, PartialEq, Eq, Structural)]
pub struct StreamConfig {
    pub channels: u16,
    pub sample_rate: u32,
    pub sample_format: SampleFormat,
}

impl StreamConfig {
    /// A configuration this subsystem can actually record from: positive
    /// channel count and rate, a frame size that fits the WAV header's
    /// 16-bit block-align field, and a byte rate small enough for its
    /// 32-bit byte-rate field.
    pub open spec fn spec_usable(self) -> bool {
        &&& 1 <= self.channels
        &&& 1 <= self.sample_rate
        &&& self.channels * self.sample_format.spec_sample_size() <= u16::MAX
        &&& self.sample_rate * self.channels * self.sample_format.spec_sample_size()
            <= u32::MAX
    }

    pub fn usable(&self) -> (r: bool)
        ensures
            r == self.spec_usable(),
    {
        let rate: u64 = self.sample_rate as u64;
        let ch: u64 = self.channels as u64;
        let sz: u64 = self.sample_format.sample_size() as u64;
        proof {
            assert(rate * ch <= 0xffff_ffff * 0xffff && rate * ch * sz <= 0xffff_ffff * 0xffff
                * 4) by (nonlinear_arith)
                requires
                    rate <= 0xffff_ffff,
                    ch <= 0xffff,
                    sz <= 4,
            ;
        }
        let block: u64 = ch * sz;
        let byte_rate: u64 = rate * ch * sz;
        1 <= self.channels && 1 <= self.sample_rate && block <= u16::MAX as u64 && byte_rate
            <= u32::MAX as u64
    }
}

/// One device as enumerated from the host: its name and, if it can capture,
/// its default input stream configuration.
#[derive(Debug)]
pub struct DeviceDescriptor {
    pub name: String,
    pub default_config: Option<StreamConfig>,
}

impl DeviceDescriptor {
    /// A device is capture-capable when it reports a default input configuration.
    pub open spec fn spec_capture_capable(self) -> bool {
        self.default_config is Some
    }

    pub fn capture_capable(&self) -> (r: bool)
        ensures
            r == self.spec_capture_capable(),
    {
        self.default_config.is_some()
    }
}

/// True when at least one enumerated device is capture-capable.
pub open spec fn has_capture_device(devs: Seq<DeviceDescriptor>) -> bool {
    exists|i: int| 0 <= i < devs.len() && devs[i].spec_capture_capable()
}

/// Index of the first capture-capable device, or `devs.len()` if none exists.
pub open spec fn capture_index(devs: Seq<DeviceDescriptor>) -> int
    decreases devs.len(),
{
    if devs.len() == 0 {
        0
    } else if devs[0].spec_capture_capable() {
        0
    } else {
        1 + capture_index(devs.drop_first())
    }
}

/// The device the selector is bound to pick: the first capture-capable one
/// in enumeration order.
pub open spec fn selected_device(devs: Seq<DeviceDescriptor>) -> DeviceDescriptor {
    devs[capture_index(devs)]
}

/// `capture_index` points at the first capture-capable device: everything
/// before it is not capture-capable, and it is in range exactly when some
/// capture-capable device exists.
pub proof fn lemma_capture_index(devs: Seq<DeviceDescriptor>)
    ensures
        0 <= capture_index(devs) <= devs.len(),
        forall|j: int| 0 <= j < capture_index(devs) ==> !devs[j].spec_capture_capable(),
        has_capture_device(devs) <==> capture_index(devs) < devs.len(),
        capture_index(devs) < devs.len() ==> devs[capture_index(devs)].spec_capture_capable(),
    decreases devs.len(),
{
    if devs.len() == 0 {
    } else if devs[0].spec_capture_capable() {
    } else {
        lemma_capture_index(devs.drop_first());
        let rest = devs.drop_first();
        assert(forall|j: int| 0 <= j < rest.len() ==> rest[j] == devs[j + 1]);
        assert forall|j: int| 0 <= j < capture_index(devs) implies !devs[j].spec_capture_capable() by {
            if j > 0 {
                assert(!rest[j - 1].spec_capture_capable());
            }
        }
        if has_capture_device(devs) {
            let i = choose|i: int| 0 <= i < devs.len() && devs[i].spec_capture_capable();
            assert(i != 0);
            assert(rest[i - 1].spec_capture_capable());
            assert(has_capture_device(rest));
        }
        if has_capture_device(rest) {
            let i = choose|i: int| 0 <= i < rest.len() && rest[i].spec_capture_capable();
            assert(devs[i + 1].spec_capture_capable());
            assert(has_capture_device(devs));
        }
    }
}

/// Enumerated devices are filtered to those reporting a default input
/// configuration, and the first of those in enumeration order is picked.
/// Fails with `NoDeviceFound` exactly when no device is capture-capable.
pub fn select_input_device(devices: Vec<DeviceDescriptor>) -> (r: Result<
    DeviceDescriptor,
    RecordingError,
>)
    ensures
        has_capture_device(devices@) ==> (r matches Ok(d) && d == selected_device(devices@)),
        !has_capture_device(devices@) ==> r == Err::<DeviceDescriptor, RecordingError>(
            RecordingError::NoDeviceFound,
        ),
{
    let n = devices.len();
    let mut i: usize = 0;
    while i < n
        invariant
            n == devices@.len(),
            0 <= i <= n,
            forall|j: int| 0 <= j < i ==> !devices@[j].spec_capture_capable(),
        decreases n - i,
    {
        if devices[i].capture_capable() {
            proof {
                lemma_capture_index(devices@);
                assert(has_capture_device(devices@));
                let ci = capture_index(devices@);
                assert(ci <= i) by {
                    if ci > i {
                        assert(!devices@[i as int].spec_capture_capable());
                    }
                }
                assert(ci == i) by {
                    if ci < i {
                        assert(!devices@[ci].spec_capture_capable());
                    }
                }
            }
            let mut devices = devices;
            let d = devices.remove(i);
            return Ok(d);
        }
        i += 1;
    }
    proof {
        lemma_capture_index(devices@);
    }
    Err(RecordingError::NoDeviceFound)
}

/// Reads the device's default input configuration; there is no preference
/// logic beyond "use the device default". Fails with `NoSupportedConfig`
/// exactly when the device exposes none.
pub fn negotiate(device: &DeviceDescriptor) -> (r: Result<StreamConfig, RecordingError>)
    ensures
        device.default_config matches Some(c) ==> r == Ok::<StreamConfig, RecordingError>(c),
        device.default_config is None ==> r == Err::<StreamConfig, RecordingError>(
            RecordingError::NoSupportedConfig,
        ),
{
    match device.default_config {
        Some(c) => Ok(c),
        None => Err(RecordingError::NoSupportedConfig),
    }
}

} // verus!
