//! The buffer of a recording.
//!
//! The input device is the caller's. It hands each block of samples it
//! captured to the recorder, which keeps them as signed 16-bit samples until
//! recording is stopped.

use crate::text::joined;
use vstd::prelude::*;
use vstd::string::*;

verus! {

/// The sample format that an input device delivers.
#[derive(Debug, Clone, Copy, PartialEq, Eq, Structural)]
pub enum CaptureFormat {
    /// 32-bit floating point.
    F32,
    /// Signed 16-bit integers.
    I16,
    /// Unsigned 16-bit integers.
    U16,
    /// Any other format.
    Other,
}

/// Why recording could not start.
#[derive(Debug)]
pub enum AudioError {
    /// There is no input device.
    NoInputDevice,
    /// The device's configuration could not be read.
    Config(String),
    /// The device delivers a format that the recorder does not take.
    UnsupportedFormat,
    /// The input stream could not be built.
    Build(String),
    /// The input stream could not be started.
    Start(String),
}

pub enum AudioErrorView {
    NoInputDevice,
    Config(Seq<char>),
    UnsupportedFormat,
    Build(Seq<char>),
    Start(Seq<char>),
}

impl View for AudioError {
    type V = AudioErrorView;

    open spec fn view(&self) -> AudioErrorView {
        match self {
            AudioError::NoInputDevice => AudioErrorView::NoInputDevice,
            AudioError::Config(reason) => AudioErrorView::Config(reason@),
            AudioError::UnsupportedFormat => AudioErrorView::UnsupportedFormat,
            AudioError::Build(reason) => AudioErrorView::Build(reason@),
            AudioError::Start(reason) => AudioErrorView::Start(reason@),
        }
    }
}

impl AudioErrorView {
    pub open spec fn message(self) -> Seq<char> {
        match self {
            AudioErrorView::NoInputDevice => "No input device available"@,
            AudioErrorView::Config(reason) => "Failed to get default input config: "@ + reason,
            AudioErrorView::UnsupportedFormat => "Unsupported sample format"@,
            AudioErrorView::Build(reason) => "Failed to build input stream: "@ + reason,
            AudioErrorView::Start(reason) => "Failed to start recording: "@ + reason,
        }
    }
}

impl AudioError {
    /// The error as a line of text.
    pub fn message(&self) -> (res: String)
        ensures
            res@ == self@.message(),
    {
        match self {
            AudioError::NoInputDevice => String::from_str("No input device available"),
            AudioError::Config(reason) => joined(
                "Failed to get default input config: ",
                reason.as_str(),
            ),
            AudioError::UnsupportedFormat => String::from_str("Unsupported sample format"),
            AudioError::Build(reason) => joined("Failed to build input stream: ", reason.as_str()),
            AudioError::Start(reason) => joined("Failed to start recording: ", reason.as_str()),
        }
    }
}

/// An unsigned sample moved to the signed range: the middle of the unsigned
/// range becomes zero.
pub open spec fn centred(sample: u16) -> i16 {
    (sample - 32768) as i16
}

/// The samples of a block of unsigned samples, each moved to the signed range.
pub open spec fn centred_all(data: Seq<u16>) -> Seq<i16> {
    Seq::new(data.len(), |i: int| centred(data[i]))
}

/// State of a recorder.
pub struct RecorderView {
    /// Whether recording has been stopped.
    pub stopped: bool,
    /// The samples captured so far.
    pub samples: Seq<i16>,
}

impl RecorderView {
    /// The state after a block of signed samples was captured: a stopped
    /// recorder drops the block.
    pub open spec fn captured(self, block: Seq<i16>) -> RecorderView {
        if self.stopped {
            self
        } else {
            RecorderView { samples: self.samples + block, ..self }
        }
    }
}

/// Collects the samples of one recording.
#[derive(Debug)]
pub struct AudioRecorder {
    stop_flag: bool,
    samples_buffer: Vec<i16>,
}

impl View for AudioRecorder {
    type V = RecorderView;

    closed spec fn view(&self) -> RecorderView {
        RecorderView { stopped: self.stop_flag, samples: self.samples_buffer@ }
    }
}

impl AudioRecorder {
    /// A recorder that is running and has captured nothing.
    pub fn new() -> (res: Self)
        ensures
            res@ == (RecorderView { stopped: false, samples: Seq::empty() }),
    {
        AudioRecorder { stop_flag: false, samples_buffer: Vec::new() }
    }

    /// Decides whether a device's format can be recorded. The three formats
    /// that can are returned as they are; any other is refused.
    pub fn start_streaming(&self, format: CaptureFormat) -> (res: Result<
        CaptureFormat,
        AudioError,
    >)
        ensures
            match res {
                Ok(taken) => taken == format && format != CaptureFormat::Other,
                Err(e) => format == CaptureFormat::Other && e@
                    == AudioErrorView::UnsupportedFormat,
            },
    {
        match format {
            CaptureFormat::F32 => Ok(CaptureFormat::F32),
            CaptureFormat::I16 => Ok(CaptureFormat::I16),
            CaptureFormat::U16 => Ok(CaptureFormat::U16),
            CaptureFormat::Other => Err(AudioError::UnsupportedFormat),
        }
    }

    /// Stops recording. The samples stay.
    pub fn stop(&mut self)
        ensures
            final(self)@ == (RecorderView { stopped: true, ..old(self)@ }),
    {
        self.stop_flag = true;
    }

    /// Whether recording has been stopped.
    pub fn is_stopped(&self) -> (res: bool)
        ensures
            res == self@.stopped,
    {
        self.stop_flag
    }

    /// A copy of the samples captured so far.
    pub fn get_samples(&self) -> (res: Vec<i16>)
        ensures
            res@ == self@.samples,
    {
        let mut copy: Vec<i16> = Vec::new();
        let mut i: usize = 0;
        while i < self.samples_buffer.len()
            invariant
                i <= self.samples_buffer@.len(),
                copy@ == self.samples_buffer@.take(i as int),
            decreases self.samples_buffer@.len() - i,
        {
            copy.push(self.samples_buffer[i]);
            assert(self.samples_buffer@.take(i + 1) =~= self.samples_buffer@.take(i as int).push(
                self.samples_buffer@[i as int],
            ));
            i = i + 1;
        }
        assert(self.samples_buffer@.take(i as int) =~= self.samples_buffer@);
        copy
    }

    /// Drops the samples captured so far.
    pub fn clear_samples(&mut self)
        ensures
            final(self)@ == (RecorderView { samples: Seq::empty(), ..old(self)@ }),
    {
        self.samples_buffer.clear();
    }

    /// Takes a block of signed 16-bit samples from the device.
    pub fn capture_i16(&mut self, data: &[i16])
        ensures
            final(self)@ == old(self)@.captured(data@),
    {
        if self.stop_flag {
            return ;
        }
        let mut i: usize = 0;
        while i < data.len()
            invariant
                i <= data@.len(),
                self.stop_flag == old(self).stop_flag,
                self.samples_buffer@ == old(self).samples_buffer@ + data@.take(i as int),
            decreases data@.len() - i,
        {
            self.samples_buffer.push(data[i]);
            assert(data@.take(i + 1) =~= data@.take(i as int).push(data@[i as int]));
            i = i + 1;
        }
        assert(data@.take(i as int) =~= data@);
    }

    /// Takes a block of unsigned 16-bit samples from the device and moves
    /// each to the signed range.
    pub fn capture_u16(&mut self, data: &[u16])
        ensures
            final(self)@ == old(self)@.captured(centred_all(data@)),
    {
        if self.stop_flag {
            return ;
        }
        let mut i: usize = 0;
        while i < data.len()
            invariant
                i <= data@.len(),
                self.stop_flag == old(self).stop_flag,
                self.samples_buffer@ == old(self).samples_buffer@ + centred_all(data@.take(i as int)),
            decreases data@.len() - i,
        {
            let sample: i32 = data[i] as i32 - 32768;
            self.samples_buffer.push(sample as i16);
            assert(centred_all(data@.take(i + 1)) =~= centred_all(data@.take(i as int)).push(
                centred(data@[i as int]),
            ));
            i = i + 1;
        }
        assert(data@.take(i as int) =~= data@);
    }
}

impl Default for AudioRecorder {
    fn default() -> (res: Self)
        ensures
            res@ == (RecorderView { stopped: false, samples: Seq::empty() }),
    {
        AudioRecorder::new()
    }
}

} // verus!
