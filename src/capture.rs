use vstd::prelude::*;

use crate::resample::CANONICAL_RATE;
use crate::text::same_text;

verus! {

/// Failures of the audio source.
#[derive(Debug, Clone, PartialEq, Eq)]
pub enum CaptureError {
    /// The audio subsystem could not list its input devices.
    DeviceEnumeration(String),
    /// No input device has the requested name.
    DeviceNotFound(String),
    /// Neither a selected nor a default input device exists.
    NoInputDevice,
    /// The driver could not open or start the capture stream.
    StreamOpen(String),
}

/// Channel count and sample rate of a capture stream.
#[derive(Debug, Clone, Copy, PartialEq, Eq, Structural)]
pub struct CaptureConfig {
    pub channels: u16,
    pub sample_rate: u32,
}

/// The configuration used when a device reports no usable default: mono at
/// 16 kHz.
pub open spec fn fallback_config() -> CaptureConfig {
    CaptureConfig { channels: 1, sample_rate: CANONICAL_RATE }
}

/// The capture configuration: the device's default when it reports one,
/// mono at 16 kHz otherwise.
pub fn resolve_config(device_default: Option<CaptureConfig>) -> (r: CaptureConfig)
    ensures
        r == (match device_default {
            Some(c) => c,
            None => fallback_config(),
        }),
{
    match device_default {
        Some(c) => c,
        None => CaptureConfig { channels: 1, sample_rate: CANONICAL_RATE },
    }
}

/// The device to record from: the explicitly selected one, else the system
/// default; `NoInputDevice` when there is neither.
pub fn resolve_device<D>(selected: Option<D>, system_default: Option<D>) -> (r: Result<D, CaptureError>)
    ensures
        selected matches Some(d) ==> r == Ok::<D, CaptureError>(d),
        selected is None ==> match system_default {
            Some(d) => r == Ok::<D, CaptureError>(d),
            None => r == Err::<D, CaptureError>(CaptureError::NoInputDevice),
        },
{
    match selected {
        Some(d) => Ok(d),
        None => match system_default {
            Some(d) => Ok(d),
            None => Err(CaptureError::NoInputDevice),
        },
    }
}

/// Position of the first device called `name` among the device names
/// `names`; `DeviceNotFound` with the name when none is.
pub fn find_device(names: &Vec<String>, name: &str) -> (r: Result<usize, CaptureError>)
    ensures
        match r {
            Ok(i) => i < names@.len() && names@[i as int]@ == name@ && forall|k: int|
                0 <= k < i ==> names@[k]@ != name@,
            Err(e) => e is DeviceNotFound && e->DeviceNotFound_0@ == name@ && forall|k: int|
                0 <= k < names@.len() ==> names@[k]@ != name@,
        },
{
    let mut i: usize = 0;
    while i < names.len()
        invariant
            i <= names@.len(),
            forall|k: int| 0 <= k < i ==> names@[k]@ != name@,
        decreases names@.len() - i,
    {
        if same_text(names[i].as_str(), name) {
            return Ok(i);
        }
        i = i + 1;
    }
    Err(CaptureError::DeviceNotFound(String::from_str(name)))
}

/// Accumulates the samples of one recording. Blocks are kept only while the
/// recording flag is set, so blocks that the driver delivers after a stop are
/// dropped.
pub struct CaptureBuffer<T> {
    recording: bool,
    samples: Vec<T>,
}

impl<T> View for CaptureBuffer<T> {
    type V = (bool, Seq<T>);

    closed spec fn view(&self) -> (bool, Seq<T>) {
        (self.recording, self.samples@)
    }
}

impl<T: Copy> CaptureBuffer<T> {
    /// An idle, empty buffer.
    pub fn new() -> (r: Self)
        ensures
            r@ == (false, Seq::<T>::empty()),
    {
        CaptureBuffer { recording: false, samples: Vec::new() }
    }

    /// Whether a recording is under way.
    pub fn is_recording(&self) -> (r: bool)
        ensures
            r == self@.0,
    {
        self.recording
    }

    /// The samples kept so far.
    pub fn len(&self) -> (r: usize)
        ensures
            r == self@.1.len(),
    {
        self.samples.len()
    }

    /// Starts a recording: earlier samples are discarded.
    pub fn begin(&mut self)
        ensures
            final(self)@ == (true, Seq::<T>::empty()),
    {
        self.samples = Vec::new();
        self.recording = true;
    }

    /// Takes a block of samples from the capture stream: appended while
    /// recording, dropped otherwise.
    pub fn push_block(&mut self, block: &[T])
        ensures
            old(self)@.0 ==> final(self)@ == (true, old(self)@.1 + block@),
            !old(self)@.0 ==> final(self)@ == old(self)@,
    {
        if !self.recording {
            return;
        }
        let ghost start = self.samples@;
        let mut i: usize = 0;
        while i < block.len()
            invariant
                self.recording,
                i <= block@.len(),
                self.samples@ == start + block@.subrange(0, i as int),
            decreases block@.len() - i,
        {
            self.samples.push(block[i]);
            i = i + 1;
        }
        assert(block@.subrange(0, block@.len() as int) =~= block@);
    }

    /// Ends the recording and hands over its samples. When no recording is
    /// under way it returns no samples and changes nothing.
    pub fn finish(&mut self) -> (r: Vec<T>)
        ensures
            old(self)@.0 ==> r@ == old(self)@.1 && final(self)@ == (false, Seq::<T>::empty()),
            !old(self)@.0 ==> r@.len() == 0 && final(self)@ == old(self)@,
    {
        if !self.recording {
            return Vec::new();
        }
        self.recording = false;
        let mut taken: Vec<T> = Vec::new();
        std::mem::swap(&mut taken, &mut self.samples);
        taken
    }
}

} // verus!
