//! The recording side: which device to open, whether a recording is under
//! way, and what becomes of the samples that the device delivers.
//!
//! Opening and driving the device is the caller's part. It reports the
//! outcome to `start_recording`, hands every block of normalized samples to
//! `capture_samples`, and sends on the chunks that come back.
use crate::codec::{encode_samples, le_encoding};
use crate::ring_buffer::{newest, CaptureRingBuffer};
use vstd::prelude::*;

verus! {

/// Seconds of audio that the capture window keeps.
pub const WINDOW_SECONDS: u64 = 5;

/// Chunks per second of audio: a chunk is a tenth of a second.
pub const CHUNKS_PER_SECOND: u64 = 10;

/// An input device as offered to the user.
#[derive(Clone, Debug, PartialEq, Eq)]
pub struct AudioDevice {
    pub name: String,
    pub is_default: bool,
}

/// The name that marks the default device: the host's default device's
/// name, or "Default" when the host names none.
pub open spec fn default_label(default_name: Option<Seq<char>>) -> Seq<char> {
    match default_name {
        Some(n) => n,
        None => "Default"@,
    }
}

/// Lists the host's input devices for the user, in the host's order, and
/// marks each whose name is the default device's. A host that reports no
/// device is shown one default entry, "Default Microphone".
pub fn list_devices(names: &[String], default_name: Option<&String>) -> (r: Vec<AudioDevice>)
    ensures
        names@.len() == 0 ==> r@.len() == 1 && r@[0].name@ == "Default Microphone"@
            && r@[0].is_default,
        names@.len() > 0 ==> r@.len() == names@.len() && forall|i: int|
            0 <= i < names@.len() ==> r@[i].name@ == names@[i]@ && r@[i].is_default == (
            names@[i]@ == default_label(
                match default_name {
                    Some(d) => Some(d@),
                    None => None,
                },
            )),
{
    let label: String = match default_name {
        Some(d) => d.clone(),
        None => "Default".to_owned(),
    };
    let mut devices: Vec<AudioDevice> = Vec::new();
    let mut i: usize = 0;
    while i < names.len()
        invariant
            i <= names@.len(),
            label@ == default_label(
                match default_name {
                    Some(d) => Some(d@),
                    None => None,
                },
            ),
            devices@.len() == i,
            forall|j: int|
                0 <= j < i ==> devices@[j].name@ == names@[j]@ && devices@[j].is_default == (
                names@[j]@ == label@),
        decreases names@.len() - i,
    {
        let name = names[i].clone();
        let is_default = name == label;
        devices.push(AudioDevice { name, is_default });
        i = i + 1;
    }
    if devices.len() == 0 {
        devices.push(AudioDevice { name: "Default Microphone".to_owned(), is_default: true });
    }
    devices
}

/// What an opened input stream delivers: frames per second and samples per
/// frame.
#[derive(Clone, Copy, Debug, PartialEq, Eq)]
pub struct StreamShape {
    pub sample_rate: u32,
    pub channels: u16,
}

pub open spec fn samples_per_second(shape: StreamShape) -> nat {
    shape.sample_rate as nat * shape.channels as nat
}

/// How many samples the capture window holds.
pub open spec fn window_capacity(shape: StreamShape) -> nat {
    samples_per_second(shape) * WINDOW_SECONDS as nat
}

/// How many samples make one chunk.
pub open spec fn chunk_length(shape: StreamShape) -> nat {
    samples_per_second(shape) / CHUNKS_PER_SECOND as nat
}

#[derive(Clone, Debug, PartialEq, Eq)]
pub enum CaptureError {
    /// A recording is already under way.
    AlreadyRecording,
    /// The host's device list holds no device of this name.
    DeviceNotFound(String),
    /// The device or its stream could not be opened.
    Device(String),
}

/// The state of a recorder as contracts speak of it.
pub ghost struct RecorderView {
    pub recording: bool,
    pub device: Option<Seq<char>>,
    pub buffered: Seq<u32>,
    pub capacity: nat,
    pub chunk_len: nat,
}

/// The state after a stop: idle, with nothing buffered; unchanged when
/// already idle.
pub open spec fn after_stop(v: RecorderView) -> RecorderView {
    if v.recording {
        RecorderView { recording: false, buffered: Seq::empty(), ..v }
    } else {
        v
    }
}

/// The residual audio that a stop hands out, as bytes; nothing when already
/// idle.
pub open spec fn stop_output(v: RecorderView) -> Option<Seq<u8>> {
    if v.recording {
        Some(le_encoding(v.buffered))
    } else {
        None
    }
}

/// Buffers samples, in bit patterns of `f32`, while a recording is under way,
/// and cuts them into chunks.
pub struct SimpleAudioRecorder {
    recording: bool,
    selected_device: Option<String>,
    buffer: CaptureRingBuffer<u32>,
    chunk_len: usize,
}

impl View for SimpleAudioRecorder {
    type V = RecorderView;

    closed spec fn view(&self) -> RecorderView {
        RecorderView {
            recording: self.recording,
            device: match self.selected_device {
                Some(d) => Some(d@),
                None => None,
            },
            buffered: self.buffer@,
            capacity: self.buffer.spec_capacity() as nat,
            chunk_len: self.chunk_len as nat,
        }
    }
}

impl SimpleAudioRecorder {
    pub closed spec fn wf(&self) -> bool {
        &&& self.buffer.wf()
        &&& 4 * self.buffer.spec_capacity() <= usize::MAX
        &&& self.chunk_len <= self.buffer.spec_capacity()
    }

    /// An idle recorder with no device chosen.
    pub fn new() -> (r: Self)
        ensures
            r.wf(),
            !r@.recording,
            r@.device is None,
            r@.buffered == Seq::<u32>::empty(),
    {
        SimpleAudioRecorder {
            recording: false,
            selected_device: None,
            buffer: CaptureRingBuffer::new(0),
            chunk_len: 0,
        }
    }

    pub fn is_recording(&self) -> (r: bool)
        ensures
            r == self@.recording,
    {
        self.recording
    }

    /// The device chosen for the next recording, if any.
    pub fn selected_device(&self) -> (r: Option<&String>)
        ensures
            r matches Some(d) ==> self@.device == Some(d@),
            r is None ==> self@.device is None,
    {
        self.selected_device.as_ref()
    }

    /// Chooses the device for the next recording. `available` is the host's
    /// list of input device names when it could be read; a name missing from
    /// it is refused, and without a list the name is taken on trust.
    pub fn select_device(&mut self, device_name: &str, available: Option<&[String]>) -> (r: Result<
        (),
        CaptureError,
    >)
        requires
            old(self).wf(),
        ensures
            final(self).wf(),
            r is Err <==> (available matches Some(names) && forall|i: int|
                0 <= i < names@.len() ==> names@[i]@ != device_name@),
            r matches Err(e) ==> (e matches CaptureError::DeviceNotFound(n) && n@ == device_name@),
            r is Err ==> final(self)@ == old(self)@,
            r is Ok ==> final(self)@ == (RecorderView { device: Some(device_name@), ..old(self)@ }),
    {
        let wanted = device_name.to_owned();
        match available {
            Some(names) => {
                let mut i: usize = 0;
                let mut found = false;
                while i < names.len() && !found
                    invariant
                        i <= names@.len(),
                        wanted@ == device_name@,
                        found <==> exists|j: int| 0 <= j < i && names@[j]@ == device_name@,
                    decreases names@.len() - i,
                {
                    if names[i] == wanted {
                        found = true;
                    }
                    i = i + 1;
                }
                if !found {
                    return Err(CaptureError::DeviceNotFound(wanted));
                }
            },
            None => {},
        }
        self.selected_device = Some(wanted);
        Ok(())
    }

    /// Starts a recording on a stream that the caller opened, or reports why
    /// it could not. A recorder that is already recording refuses; a failed
    /// open leaves the recorder idle. A start empties the buffer and sizes the
    /// window and the chunks after the stream.
    pub fn start_recording(&mut self, opened: Result<StreamShape, String>) -> (r: Result<
        (),
        CaptureError,
    >)
        requires
            old(self).wf(),
            opened matches Ok(shape) ==> 4 * window_capacity(shape) <= usize::MAX,
        ensures
            final(self).wf(),
            old(self)@.recording ==> r matches Err(CaptureError::AlreadyRecording),
            !old(self)@.recording && opened is Err ==> (r matches Err(CaptureError::Device(m))
                && m == opened->Err_0),
            r is Err ==> final(self)@ == old(self)@,
            !old(self)@.recording && opened is Ok ==> r is Ok && final(self)@ == (RecorderView {
                recording: true,
                device: old(self)@.device,
                buffered: Seq::empty(),
                capacity: window_capacity(opened->Ok_0),
                chunk_len: chunk_length(opened->Ok_0),
            }),
    {
        if self.recording {
            return Err(CaptureError::AlreadyRecording);
        }
        match opened {
            Err(message) => Err(CaptureError::Device(message)),
            Ok(shape) => {
                let per_second = shape.sample_rate as u64 * shape.channels as u64;
                let capacity = per_second * WINDOW_SECONDS;
                self.buffer.reset(capacity as usize);
                self.chunk_len = (per_second / CHUNKS_PER_SECOND) as usize;
                self.recording = true;
                Ok(())
            },
        }
    }

    /// Takes a block of samples from the device. While recording, the block
    /// joins the window (the oldest samples leave when it is full), and when a
    /// whole chunk is buffered its oldest chunk is cut off and returned as
    /// bytes. While idle the block is ignored.
    pub fn capture_samples(&mut self, samples: &[u32]) -> (r: Option<Vec<u8>>)
        requires
            old(self).wf(),
        ensures
            final(self).wf(),
            !old(self)@.recording ==> r is None && final(self)@ == old(self)@,
            old(self)@.recording ==> ({
                let pushed = newest(old(self)@.buffered + samples@, old(self)@.capacity);
                let k = old(self)@.chunk_len;
                &&& pushed.len() < k ==> r is None && final(self)@ == (RecorderView {
                    buffered: pushed,
                    ..old(self)@
                })
                &&& pushed.len() >= k ==> r is Some && r->0@ == le_encoding(
                    pushed.subrange(0, k as int),
                ) && final(self)@ == (RecorderView {
                    buffered: pushed.subrange(k as int, pushed.len() as int),
                    ..old(self)@
                })
            }),
    {
        if !self.recording {
            return None;
        }
        self.buffer.push(samples);
        match self.buffer.drain_chunk(self.chunk_len) {
            Some(chunk) => Some(encode_samples(chunk.as_slice())),
            None => None,
        }
    }

    /// Ends a recording: the recorder becomes idle and hands out everything
    /// still buffered, as bytes. When already idle nothing happens and
    /// nothing is handed out.
    pub fn stop_recording(&mut self) -> (r: Option<Vec<u8>>)
        requires
            old(self).wf(),
        ensures
            final(self).wf(),
            final(self)@ == after_stop(old(self)@),
            r is Some <==> stop_output(old(self)@) is Some,
            r matches Some(b) ==> stop_output(old(self)@) == Some(b@),
    {
        if !self.recording {
            return None;
        }
        self.recording = false;
        let residual = self.buffer.drain_all();
        Some(encode_samples(residual.as_slice()))
    }

    /// Removes and returns everything buffered, oldest first.
    pub fn get_audio_data(&mut self) -> (r: Vec<u32>)
        requires
            old(self).wf(),
        ensures
            final(self).wf(),
            r@ == old(self)@.buffered,
            final(self)@ == (RecorderView { buffered: Seq::empty(), ..old(self)@ }),
    {
        self.buffer.drain_all()
    }
}

/// Stopping is idempotent: a second stop in a row changes nothing and hands
/// out nothing.
pub proof fn lemma_stop_twice(v: RecorderView)
    ensures
        after_stop(after_stop(v)) == after_stop(v),
        stop_output(after_stop(v)) is None,
{
}

} // verus!
