//! Recording from a PulseAudio/PipeWire source: the format that is asked for, and
//! the loop that reads from the stream.

use crate::text::enclosed;
use vstd::prelude::*;

verus! {

/// The sample rate that is asked of the server, which resamples to it. The rest of
/// the pipeline expects it.
pub const CAPTURE_SAMPLE_RATE: u32 = 48000;

/// Frames that are read at a time, about 21 ms.
pub const FRAMES_PER_CHUNK: u32 = 1024;

/// Bytes of one sample.
pub const BYTES_PER_SAMPLE: u32 = 4;

/// A buffer attribute that does not apply to record streams.
pub const NOT_USED: u32 = 0xffff_ffff;

/// The format and the buffers that a record stream is opened with.
#[derive(Clone, Copy, Debug, PartialEq, Eq, Structural)]
pub struct CaptureFormat {
    /// Channels, as the sample specification holds them.
    pub channels: u8,
    pub rate: u32,
    /// Bytes that the server holds at most: half a second, to survive load spikes.
    pub maxlength: u32,
    pub tlength: u32,
    pub prebuf: u32,
    pub minreq: u32,
    /// Bytes that the server delivers at a time: exactly what one read asks for.
    pub fragsize: u32,
}

/// The bytes of one chunk of so many channels.
pub open spec fn chunk_bytes(channels: int) -> int {
    FRAMES_PER_CHUNK * channels * BYTES_PER_SAMPLE
}

impl CaptureFormat {
    /// The format for so many channels.
    pub fn with_channels(channels: u16) -> (format: Self)
        requires
            CAPTURE_SAMPLE_RATE / 2 * channels * BYTES_PER_SAMPLE <= u32::MAX,
        ensures
            format.channels == #[verifier::truncate] (channels as u8),
            format.rate == CAPTURE_SAMPLE_RATE,
            2 * format.maxlength == CAPTURE_SAMPLE_RATE * channels * BYTES_PER_SAMPLE,
            format.fragsize == chunk_bytes(channels as int),
            format.tlength == NOT_USED,
            format.prebuf == NOT_USED,
            format.minreq == NOT_USED,
    {
        let wide: u32 = channels as u32;
        proof {
            assert(CAPTURE_SAMPLE_RATE * channels * BYTES_PER_SAMPLE == 2 * (CAPTURE_SAMPLE_RATE / 2
                * channels * BYTES_PER_SAMPLE)) by (nonlinear_arith)
                requires
                    CAPTURE_SAMPLE_RATE == 48000,
            ;
            assert(FRAMES_PER_CHUNK * channels * BYTES_PER_SAMPLE <= CAPTURE_SAMPLE_RATE / 2 * channels
                * BYTES_PER_SAMPLE) by (nonlinear_arith)
                requires
                    CAPTURE_SAMPLE_RATE == 48000,
                    FRAMES_PER_CHUNK == 1024,
                    BYTES_PER_SAMPLE == 4,
            ;
        }
        CaptureFormat {
            channels: #[verifier::truncate] (channels as u8),
            rate: CAPTURE_SAMPLE_RATE,
            maxlength: (CAPTURE_SAMPLE_RATE / 2) * wide * BYTES_PER_SAMPLE,
            tlength: NOT_USED,
            prebuf: NOT_USED,
            minreq: NOT_USED,
            fragsize: FRAMES_PER_CHUNK * wide * BYTES_PER_SAMPLE,
        }
    }
}

/// How a sample is written.
#[derive(Clone, Copy, Debug, PartialEq, Eq, Structural)]
pub enum CaptureSample {
    /// A floating-point number of 32 bits, in the byte order of the machine.
    Float32NativeEndian,
}

/// What is captured.
#[derive(Clone, Copy, Debug, PartialEq, Eq, Structural)]
pub enum CaptureTarget {
    /// The monitor source of a sink, in stereo.
    System,
    /// An input source, in mono.
    Microphone,
}

impl CaptureTarget {
    /// The channels that are captured.
    pub open spec fn channel_count(self) -> u16 {
        match self {
            CaptureTarget::System => 2,
            CaptureTarget::Microphone => 1,
        }
    }

    /// The name that a stream goes by on the server.
    pub open spec fn shown(self) -> Seq<char> {
        match self {
            CaptureTarget::System => "System Audio"@,
            CaptureTarget::Microphone => "Microphone"@,
        }
    }

    /// The channels that are captured.
    pub fn channels(&self) -> (channels: u16)
        ensures
            channels == self.channel_count(),
    {
        match self {
            CaptureTarget::System => 2,
            CaptureTarget::Microphone => 1,
        }
    }

    /// How the samples are written, whatever is captured: in [`BYTES_PER_SAMPLE`]
    /// bytes each.
    pub fn sample(&self) -> (sample: CaptureSample)
        ensures
            sample is Float32NativeEndian,
    {
        CaptureSample::Float32NativeEndian
    }

    /// The name that the stream goes by on the server.
    pub fn stream_label(&self) -> (text: &'static str)
        ensures
            text@ == self.shown(),
    {
        match self {
            CaptureTarget::System => "System Audio",
            CaptureTarget::Microphone => "Microphone",
        }
    }

    /// The format that the target is captured in.
    pub fn format(&self) -> (format: CaptureFormat)
        ensures
            format.channels == self.channel_count(),
            format.rate == CAPTURE_SAMPLE_RATE,
            2 * format.maxlength == CAPTURE_SAMPLE_RATE * self.channel_count() * BYTES_PER_SAMPLE,
            format.fragsize == chunk_bytes(self.channel_count() as int),
            format.tlength == NOT_USED,
            format.prebuf == NOT_USED,
            format.minreq == NOT_USED,
    {
        CaptureFormat::with_channels(self.channels())
    }
}

/// What came of opening a record stream.
#[derive(Debug)]
pub enum Opened<S> {
    /// The server's client library rejects the sample specification.
    InvalidFormat,
    /// The stream could not be opened.
    Refused(String),
    /// The stream is open.
    Stream(S),
}

/// Why there is no capture.
#[derive(Debug, PartialEq, Eq)]
pub enum CaptureError {
    InvalidFormat,
    Refused { source_name: String, reason: String },
}

impl CaptureError {
    /// The message for an error.
    pub open spec fn text(self) -> Seq<char> {
        match self {
            CaptureError::InvalidFormat => "Invalid PulseAudio sample spec"@,
            CaptureError::Refused { source_name, reason } => "Failed to open PulseAudio record stream on '"@
                + source_name@ + "': "@ + reason@,
        }
    }

    /// The message for the error.
    pub fn message(&self) -> (text: String)
        ensures
            text@ == self.text(),
    {
        match self {
            CaptureError::InvalidFormat => "Invalid PulseAudio sample spec".to_owned(),
            CaptureError::Refused { source_name, reason } => {
                let start = enclosed(
                    "Failed to open PulseAudio record stream on '",
                    source_name.as_str(),
                    "': ",
                );
                crate::text::joined(start.as_str(), reason.as_str())
            },
        }
    }
}

/// A record stream of type `S`, with the flag of type `F` that stops its loop.
#[derive(Debug)]
pub struct PulseCapture<S, F> {
    simple: S,
    should_stop: F,
    channels: u16,
}

impl<S, F> PulseCapture<S, F> {
    /// The open stream.
    pub closed spec fn stream_model(&self) -> S {
        self.simple
    }

    /// The flag that stops the loop.
    pub closed spec fn stop_model(&self) -> F {
        self.should_stop
    }

    /// The channels that are captured.
    pub closed spec fn channels_model(&self) -> u16 {
        self.channels
    }

    fn with_target(
        source_name: &str,
        target: CaptureTarget,
        opened: Opened<S>,
        should_stop: F,
    ) -> (result: Result<Self, CaptureError>)
        ensures
            match opened {
                Opened::Stream(simple) => {
                    &&& result is Ok
                    &&& result->Ok_0.stream_model() == simple
                    &&& result->Ok_0.stop_model() == should_stop
                    &&& result->Ok_0.channels_model() == target.channel_count()
                },
                Opened::InvalidFormat => result == Err::<Self, _>(CaptureError::InvalidFormat),
                Opened::Refused(why) => result matches Err(CaptureError::Refused {
                    source_name: at,
                    reason,
                }) && at@ == source_name@ && reason == why,
            },
    {
        match opened {
            Opened::Stream(simple) => Ok(
                PulseCapture { simple, should_stop, channels: target.channels() },
            ),
            Opened::InvalidFormat => Err(CaptureError::InvalidFormat),
            Opened::Refused(reason) => Err(
                CaptureError::Refused { source_name: source_name.to_owned(), reason },
            ),
        }
    }

    /// System audio: stereo capture of the monitor source of a sink.
    pub fn new_system(monitor_source_name: &str, opened: Opened<S>, should_stop: F) -> (result:
        Result<Self, CaptureError>)
        ensures
            match opened {
                Opened::Stream(simple) => {
                    &&& result is Ok
                    &&& result->Ok_0.stream_model() == simple
                    &&& result->Ok_0.stop_model() == should_stop
                    &&& result->Ok_0.channels_model() == 2
                },
                Opened::InvalidFormat => result == Err::<Self, _>(CaptureError::InvalidFormat),
                Opened::Refused(why) => result matches Err(CaptureError::Refused {
                    source_name: at,
                    reason,
                }) && at@ == monitor_source_name@ && reason == why,
            },
    {
        Self::with_target(monitor_source_name, CaptureTarget::System, opened, should_stop)
    }

    /// Microphone: mono capture of an input source.
    pub fn new_microphone(source_name: &str, opened: Opened<S>, should_stop: F) -> (result: Result<
        Self,
        CaptureError,
    >)
        ensures
            match opened {
                Opened::Stream(simple) => {
                    &&& result is Ok
                    &&& result->Ok_0.stream_model() == simple
                    &&& result->Ok_0.stop_model() == should_stop
                    &&& result->Ok_0.channels_model() == 1
                },
                Opened::InvalidFormat => result == Err::<Self, _>(CaptureError::InvalidFormat),
                Opened::Refused(why) => result matches Err(CaptureError::Refused {
                    source_name: at,
                    reason,
                }) && at@ == source_name@ && reason == why,
            },
    {
        Self::with_target(source_name, CaptureTarget::Microphone, opened, should_stop)
    }

    /// The sample rate of the stream.
    pub fn sample_rate(&self) -> (rate: u32)
        ensures
            rate == CAPTURE_SAMPLE_RATE,
    {
        CAPTURE_SAMPLE_RATE
    }

    /// The channels of the stream.
    pub fn channels(&self) -> (channels: u16)
        ensures
            channels == self.channels_model(),
    {
        self.channels
    }

    /// The flag that stops the loop, which runs on another thread.
    pub fn stop_handle(&self) -> (flag: &F)
        ensures
            *flag == self.stop_model(),
    {
        &self.should_stop
    }

    /// The stream that the loop reads from.
    pub fn stream(&self) -> (simple: &S)
        ensures
            *simple == self.stream_model(),
    {
        &self.simple
    }

    /// The loop that reads from the stream, at its start.
    pub fn run(&self) -> (read_loop: CaptureLoop)
        ensures
            read_loop.stage is BeforeRead,
            read_loop.read_bytes == chunk_bytes(self.channels_model() as int),
    {
        proof {
            assert(0 <= FRAMES_PER_CHUNK * self.channels * BYTES_PER_SAMPLE <= 1024 * 65535 * 4)
                by (nonlinear_arith)
                requires
                    FRAMES_PER_CHUNK == 1024,
                    BYTES_PER_SAMPLE == 4,
                    0 <= self.channels <= 65535,
            ;
        }
        CaptureLoop {
            stage: CaptureStage::BeforeRead,
            read_bytes: FRAMES_PER_CHUNK as u64 * self.channels as u64 * BYTES_PER_SAMPLE as u64,
        }
    }
}

// ---------------------------------------------------------------------------
// The read loop
// ---------------------------------------------------------------------------

/// Where the read loop stands.
#[derive(Clone, Copy, Debug, PartialEq, Eq, Structural)]
pub enum CaptureStage {
    /// About to look at the stop flag before a read.
    BeforeRead,
    /// Reading one chunk, which blocks.
    Reading,
    /// About to look at the stop flag again: a read that returns late must not
    /// inject a chunk into whatever recording exists by then.
    AfterRead,
    /// Handing the chunk on.
    Delivering,
    /// Done.
    Finished,
}

/// What happened since the loop last said what to do.
#[derive(Clone, Copy, Debug, PartialEq, Eq, Structural)]
pub enum CaptureEvent {
    /// The stop flag was looked at.
    StopFlag(bool),
    /// The chunk was read.
    ReadSucceeded,
    /// The read failed.
    ReadFailed,
    /// The chunk was handed on.
    Delivered,
}

/// The loop that reads chunks until it is stopped or the stream fails.
#[derive(Clone, Copy, Debug, PartialEq, Eq, Structural)]
pub struct CaptureLoop {
    /// What to do next.
    pub stage: CaptureStage,
    /// Bytes of one read.
    pub read_bytes: u64,
}

/// The stage that follows a stage on an event. An event that does not belong to
/// the stage leaves it as it is.
pub open spec fn next_stage(stage: CaptureStage, event: CaptureEvent) -> CaptureStage {
    match (stage, event) {
        (CaptureStage::BeforeRead, CaptureEvent::StopFlag(stop)) => if stop {
            CaptureStage::Finished
        } else {
            CaptureStage::Reading
        },
        (CaptureStage::Reading, CaptureEvent::ReadSucceeded) => CaptureStage::AfterRead,
        (CaptureStage::Reading, CaptureEvent::ReadFailed) => CaptureStage::Finished,
        (CaptureStage::AfterRead, CaptureEvent::StopFlag(stop)) => if stop {
            CaptureStage::Finished
        } else {
            CaptureStage::Delivering
        },
        (CaptureStage::Delivering, CaptureEvent::Delivered) => CaptureStage::BeforeRead,
        _ => stage,
    }
}

impl CaptureLoop {
    /// Take in what happened.
    pub fn step(&mut self, event: CaptureEvent)
        ensures
            final(self).stage == next_stage(old(self).stage, event),
            final(self).read_bytes == old(self).read_bytes,
    {
        self.stage = match self.stage {
            CaptureStage::BeforeRead => match event {
                CaptureEvent::StopFlag(true) => CaptureStage::Finished,
                CaptureEvent::StopFlag(false) => CaptureStage::Reading,
                _ => CaptureStage::BeforeRead,
            },
            CaptureStage::Reading => match event {
                CaptureEvent::ReadSucceeded => CaptureStage::AfterRead,
                CaptureEvent::ReadFailed => CaptureStage::Finished,
                _ => CaptureStage::Reading,
            },
            CaptureStage::AfterRead => match event {
                CaptureEvent::StopFlag(true) => CaptureStage::Finished,
                CaptureEvent::StopFlag(false) => CaptureStage::Delivering,
                _ => CaptureStage::AfterRead,
            },
            CaptureStage::Delivering => match event {
                CaptureEvent::Delivered => CaptureStage::BeforeRead,
                _ => CaptureStage::Delivering,
            },
            CaptureStage::Finished => CaptureStage::Finished,
        };
    }
}

/// The samples of a chunk, each as its bytes in memory order. Bytes that do not
/// make up a whole sample are left out.
pub fn sample_bytes(chunk: &[u8]) -> (samples: Vec<[u8; 4]>)
    ensures
        samples@.len() == chunk@.len() / 4,
        forall|i: int|
            0 <= i < samples@.len() ==> (#[trigger] samples@[i])@ == chunk@.subrange(
                4 * i,
                4 * i + 4,
            ),
{
    let mut samples: Vec<[u8; 4]> = Vec::new();
    let count: usize = chunk.len() / 4;
    let mut at: usize = 0;
    while at < count
        invariant
            at <= count,
            count == chunk@.len() / 4,
            chunk@.len() <= usize::MAX,
            samples@.len() == at,
            forall|i: int|
                0 <= i < at ==> (#[trigger] samples@[i])@ == chunk@.subrange(4 * i, 4 * i + 4),
        decreases count - at,
    {
        let from: usize = 4 * at;
        let sample: [u8; 4] = [chunk[from], chunk[from + 1], chunk[from + 2], chunk[from + 3]];
        proof {
            assert(sample@ =~= chunk@.subrange(4 * at as int, 4 * at + 4));
        }
        samples.push(sample);
        at = at + 1;
    }
    samples
}

// ---------------------------------------------------------------------------
// Laws
// ---------------------------------------------------------------------------

/// The stage after a series of events.
pub open spec fn stage_after(stage: CaptureStage, events: Seq<CaptureEvent>) -> CaptureStage
    decreases events.len(),
{
    if events.len() == 0 {
        stage
    } else {
        next_stage(stage_after(stage, events.drop_last()), events.last())
    }
}

/// Once the stop flag is seen raised wherever it is looked at, nothing more is
/// handed on: the loop never comes to deliver a chunk.
pub proof fn nothing_is_delivered_after_stop(stage: CaptureStage, events: Seq<CaptureEvent>)
    requires
        !(stage is Delivering),
        forall|i: int| 0 <= i < events.len() ==> #[trigger] events[i] != CaptureEvent::StopFlag(false),
    ensures
        !(stage_after(stage, events) is Delivering),
    decreases events.len(),
{
    if events.len() > 0 {
        assert forall|i: int| 0 <= i < events.drop_last().len() implies #[trigger] events.drop_last()[i]
            != CaptureEvent::StopFlag(false) by {
            assert(events.drop_last()[i] == events[i]);
        }
        nothing_is_delivered_after_stop(stage, events.drop_last());
        assert(events.last() == events[events.len() - 1]);
    }
}

/// A finished loop stays finished.
pub proof fn finished_is_final(events: Seq<CaptureEvent>)
    ensures
        stage_after(CaptureStage::Finished, events) is Finished,
    decreases events.len(),
{
    if events.len() > 0 {
        finished_is_final(events.drop_last());
    }
}

} // verus!
