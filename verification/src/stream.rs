//! Capture streams: what a running stream holds on to, how it is stopped, and the
//! pair of streams that a recording runs on.

use crate::device::AudioDevice;
use crate::text::{enclosed, joined, optional};
use vstd::prelude::*;

verus! {

// ---------------------------------------------------------------------------
// Kinds of capture
// ---------------------------------------------------------------------------

/// What a stream captures.
#[derive(Clone, Copy, Debug, PartialEq, Eq, Structural)]
pub enum CaptureKind {
    Microphone,
    System,
}

/// The backend that is configured for system audio on macOS.
#[derive(Clone, Copy, Debug, PartialEq, Eq, Structural)]
pub enum AudioCaptureBackend {
    ScreenCaptureKit,
    CoreAudio,
}

// ---------------------------------------------------------------------------
// Sample formats
// ---------------------------------------------------------------------------

/// The format of the samples that a device delivers.
#[derive(Debug, PartialEq, Eq)]
pub enum SampleFormat {
    F32,
    I16,
    I32,
    I8,
    /// Another format, by its name.
    Other(String),
}

/// How samples become fractions of full scale.
#[derive(Clone, Copy, Debug, PartialEq, Eq, Structural)]
pub enum SampleScale {
    /// They are fractions already.
    AsIs,
    /// They are divided by the largest sample of their format.
    DividedBy(i32),
}

/// The scale of a format; `None` for a format that is not supported.
pub open spec fn scale_of(format: SampleFormat) -> Option<SampleScale> {
    match format {
        SampleFormat::F32 => Some(SampleScale::AsIs),
        SampleFormat::I16 => Some(SampleScale::DividedBy(i16::MAX as i32)),
        SampleFormat::I32 => Some(SampleScale::DividedBy(i32::MAX)),
        SampleFormat::I8 => Some(SampleScale::DividedBy(i8::MAX as i32)),
        SampleFormat::Other(_) => None,
    }
}

/// How the samples of a device are scaled, or why no stream can be built for it.
pub fn build_stream(format: &SampleFormat) -> (result: Result<SampleScale, String>)
    ensures
        match scale_of(*format) {
            Some(scale) => result == Ok::<SampleScale, String>(scale),
            None => result is Err && result->Err_0@ == "Unsupported sample format: "@
                + format->Other_0@,
        },
{
    match format {
        SampleFormat::F32 => Ok(SampleScale::AsIs),
        SampleFormat::I16 => Ok(SampleScale::DividedBy(i16::MAX as i32)),
        SampleFormat::I32 => Ok(SampleScale::DividedBy(i32::MAX)),
        SampleFormat::I8 => Ok(SampleScale::DividedBy(i8::MAX as i32)),
        SampleFormat::Other(name) => Err(joined("Unsupported sample format: ", name.as_str())),
    }
}

// ---------------------------------------------------------------------------
// One stream
// ---------------------------------------------------------------------------

/// How long to wait for a reading thread to finish.
pub const JOIN_TIMEOUT_MS: u64 = 2000;

/// How long to leave an aborted task to clean up.
pub const ABORT_GRACE_MS: u64 = 50;

/// What a running stream holds on to: a stream `C` of the audio host, a task `T`,
/// a flag `F` that stops a reading thread.
#[derive(Debug)]
pub enum StreamBackend<C, T, F> {
    /// A stream of the audio host.
    Cpal(C),
    /// A Core Audio tap, read by a task.
    CoreAudio { task: Option<T> },
    /// A record stream of the server, read by a thread.
    Pulse { should_stop: F, task: Option<T> },
}

/// How to stop a stream.
#[derive(Debug)]
pub enum StreamStop<C, T, F> {
    /// Pause the stream first, so that no callback runs any more, then drop it.
    PauseAndDrop(C),
    /// Abort the task, and leave it [`ABORT_GRACE_MS`] to clean up.
    Abort(Option<T>),
    /// Raise the flag, then wait for the thread, [`JOIN_TIMEOUT_MS`] at most:
    /// aborting a thread that is blocked in a read would do nothing.
    RaiseAndJoin { should_stop: F, task: Option<T> },
}

/// The way to stop a backend.
pub open spec fn stop_of<C, T, F>(backend: StreamBackend<C, T, F>) -> StreamStop<C, T, F> {
    match backend {
        StreamBackend::Cpal(stream) => StreamStop::PauseAndDrop(stream),
        StreamBackend::CoreAudio { task } => StreamStop::Abort(task),
        StreamBackend::Pulse { should_stop, task } => StreamStop::RaiseAndJoin { should_stop, task },
    }
}

/// A running stream of a device.
#[derive(Debug)]
pub struct AudioStream<C, T, F> {
    device: AudioDevice,
    backend: StreamBackend<C, T, F>,
}

impl<C, T, F> AudioStream<C, T, F> {
    /// The device that is captured.
    pub closed spec fn device_model(&self) -> AudioDevice {
        self.device
    }

    /// What the stream holds on to.
    pub closed spec fn backend_model(&self) -> StreamBackend<C, T, F> {
        self.backend
    }

    /// A stream of a device on a running backend.
    pub fn running(device: AudioDevice, backend: StreamBackend<C, T, F>) -> (stream: Self)
        ensures
            stream.device_model() == device,
            stream.backend_model() == backend,
    {
        AudioStream { device, backend }
    }

    /// The device that is captured.
    pub fn device(&self) -> (device: &AudioDevice)
        ensures
            *device == self.device_model(),
    {
        &self.device
    }

    /// The flag to raise where there is no time to wait for the stream to stop.
    /// The other backends clean up when they are dropped.
    pub fn signal_stop_only(&self) -> (flag: Option<&F>)
        ensures
            match self.backend_model() {
                StreamBackend::Pulse { should_stop, .. } => flag == Some(&should_stop),
                _ => flag is None,
            },
    {
        match &self.backend {
            StreamBackend::Pulse { should_stop, .. } => Some(should_stop),
            _ => None,
        }
    }

    /// How to stop the stream.
    pub fn stop(self) -> (stop: StreamStop<C, T, F>)
        ensures
            stop == stop_of(self.backend_model()),
    {
        match self.backend {
            StreamBackend::Cpal(stream) => StreamStop::PauseAndDrop(stream),
            StreamBackend::CoreAudio { task } => StreamStop::Abort(task),
            StreamBackend::Pulse { should_stop, task } => StreamStop::RaiseAndJoin {
                should_stop,
                task,
            },
        }
    }
}

// ---------------------------------------------------------------------------
// The streams of a recording
// ---------------------------------------------------------------------------

/// Why the streams of a recording could not be started.
#[derive(Debug, PartialEq, Eq)]
pub enum StartFailure {
    /// The microphone stream failed.
    Microphone(String),
    /// There is neither a microphone nor a system stream.
    NoStreams,
}

/// How far the streams of a recording are started, and with that what to do next.
#[derive(Debug, PartialEq, Eq)]
pub enum StartStage {
    /// Nothing is being started.
    Idle,
    /// Create the microphone stream.
    CreateMicrophone { device: AudioDevice, system: Option<AudioDevice> },
    /// Note the microphone as the device in use and its capture as active.
    MarkMicrophone { device: AudioDevice, system: Option<AudioDevice> },
    /// Create the system stream.
    CreateSystem { device: AudioDevice },
    /// Note the system device as the device in use and its capture as active.
    MarkSystem { device: AudioDevice },
    /// Note that the setup of the captures is over; all went well.
    Started,
    /// Note that the setup of the captures is over; it failed.
    Failed(StartFailure),
}

/// The streams of a recording.
#[derive(Debug)]
pub struct AudioStreamManager<C, T, F> {
    pub microphone_stream: Option<AudioStream<C, T, F>>,
    pub system_stream: Option<AudioStream<C, T, F>>,
    pub stage: StartStage,
}

/// The stage at which no stream is left to be tried.
pub open spec fn settled(any_stream: bool) -> StartStage {
    if any_stream {
        StartStage::Started
    } else {
        StartStage::Failed(StartFailure::NoStreams)
    }
}

/// The stage at which the system stream is next.
pub open spec fn system_stage(system: Option<AudioDevice>, any_stream: bool) -> StartStage {
    match system {
        Some(device) => StartStage::CreateSystem { device },
        None => settled(any_stream),
    }
}

impl<C, T, F> AudioStreamManager<C, T, F> {
    /// A stream is there.
    pub open spec fn any_stream(self) -> bool {
        self.microphone_stream is Some || self.system_stream is Some
    }

    /// After starting with the given devices.
    pub open spec fn after_start(
        self,
        microphone: Option<AudioDevice>,
        system: Option<AudioDevice>,
    ) -> Self {
        AudioStreamManager {
            stage: match microphone {
                Some(device) => StartStage::CreateMicrophone { device, system },
                None => system_stage(system, self.any_stream()),
            },
            ..self
        }
    }

    /// After an attempt to create a stream. An attempt that no stage asked for
    /// changes nothing.
    pub open spec fn after_created(self, reply: Result<AudioStream<C, T, F>, String>) -> Self {
        match (self.stage, reply) {
            (StartStage::CreateMicrophone { device, system }, Ok(stream)) => AudioStreamManager {
                microphone_stream: Some(stream),
                stage: StartStage::MarkMicrophone { device, system },
                ..self
            },
            (StartStage::CreateMicrophone { device, system }, Err(why)) => AudioStreamManager {
                stage: StartStage::Failed(StartFailure::Microphone(why)),
                ..self
            },
            (StartStage::CreateSystem { device }, Ok(stream)) => AudioStreamManager {
                system_stream: Some(stream),
                stage: StartStage::MarkSystem { device },
                ..self
            },
            (StartStage::CreateSystem { device }, Err(why)) => AudioStreamManager {
                stage: settled(self.any_stream()),
                ..self
            },
            _ => self,
        }
    }

    /// After a device was noted as in use.
    pub open spec fn after_marked(self) -> Self {
        match self.stage {
            StartStage::MarkMicrophone { device, system } => AudioStreamManager {
                stage: system_stage(system, self.any_stream()),
                ..self
            },
            StartStage::MarkSystem { device } => AudioStreamManager {
                stage: settled(self.any_stream()),
                ..self
            },
            _ => self,
        }
    }

    /// No streams yet.
    pub fn new() -> (manager: Self)
        ensures
            manager.microphone_stream is None,
            manager.system_stream is None,
            manager.stage is Idle,
    {
        AudioStreamManager {
            microphone_stream: None,
            system_stream: None,
            stage: StartStage::Idle,
        }
    }

    /// Start the streams of the given devices, the microphone first. Without a
    /// working microphone stream there is no recording; a system stream that fails
    /// is done without.
    pub fn start_streams(&mut self, microphone: Option<AudioDevice>, system: Option<AudioDevice>)
        ensures
            *final(self) == old(self).after_start(microphone, system),
    {
        let any = self.has_active_streams();
        self.stage = match microphone {
            Some(device) => StartStage::CreateMicrophone { device, system },
            None => Self::next_system(system, any),
        };
    }

    /// Take in what came of creating a stream.
    pub fn created(&mut self, reply: Result<AudioStream<C, T, F>, String>)
        ensures
            *final(self) == old(self).after_created(reply),
    {
        let mut stage = StartStage::Idle;
        std::mem::swap(&mut stage, &mut self.stage);
        match stage {
            StartStage::CreateMicrophone { device, system } => match reply {
                Ok(stream) => {
                    self.microphone_stream = Some(stream);
                    self.stage = StartStage::MarkMicrophone { device, system };
                },
                Err(why) => {
                    self.stage = StartStage::Failed(StartFailure::Microphone(why));
                },
            },
            StartStage::CreateSystem { device } => match reply {
                Ok(stream) => {
                    self.system_stream = Some(stream);
                    self.stage = StartStage::MarkSystem { device };
                },
                Err(_) => {
                    let any = self.has_active_streams();
                    self.stage = Self::over(any);
                },
            },
            other => {
                self.stage = other;
            },
        }
    }

    /// Take in that the device was noted as in use.
    pub fn marked(&mut self)
        ensures
            *final(self) == old(self).after_marked(),
    {
        let any = self.has_active_streams();
        let mut stage = StartStage::Idle;
        std::mem::swap(&mut stage, &mut self.stage);
        self.stage = match stage {
            StartStage::MarkMicrophone { system, .. } => Self::next_system(system, any),
            StartStage::MarkSystem { .. } => Self::over(any),
            other => other,
        };
    }

    fn next_system(system: Option<AudioDevice>, any_stream: bool) -> (stage: StartStage)
        ensures
            stage == system_stage(system, any_stream),
    {
        match system {
            Some(device) => StartStage::CreateSystem { device },
            None => Self::over(any_stream),
        }
    }

    fn over(any_stream: bool) -> (stage: StartStage)
        ensures
            stage == settled(any_stream),
    {
        if any_stream {
            StartStage::Started
        } else {
            StartStage::Failed(StartFailure::NoStreams)
        }
    }

    /// The message for streams that could not be started.
    pub fn failure(&self) -> (message: Option<String>)
        ensures
            optional(message) == match self.stage {
                StartStage::Failed(StartFailure::Microphone(why)) => Some(why@),
                StartStage::Failed(StartFailure::NoStreams) => Some(
                    "No audio streams could be created"@,
                ),
                _ => None,
            },
    {
        match &self.stage {
            StartStage::Failed(StartFailure::Microphone(why)) => Some(why.clone()),
            StartStage::Failed(StartFailure::NoStreams) => Some(
                "No audio streams could be created".to_owned(),
            ),
            _ => None,
        }
    }

    /// Hand out both streams, to be stopped in this order: the microphone, then
    /// system audio. None is left.
    pub fn stop_streams(&mut self) -> (streams: (
        Option<AudioStream<C, T, F>>,
        Option<AudioStream<C, T, F>>,
    ))
        ensures
            streams.0 == old(self).microphone_stream,
            streams.1 == old(self).system_stream,
            final(self).microphone_stream is None,
            final(self).system_stream is None,
            final(self).stage == old(self).stage,
    {
        (self.microphone_stream.take(), self.system_stream.take())
    }

    /// How many streams there are.
    pub fn active_stream_count(&self) -> (count: usize)
        ensures
            count == (if self.microphone_stream is Some {
                1int
            } else {
                0int
            }) + (if self.system_stream is Some {
                1int
            } else {
                0int
            }),
    {
        let mut count: usize = 0;
        if self.microphone_stream.is_some() {
            count = count + 1;
        }
        if self.system_stream.is_some() {
            count = count + 1;
        }
        count
    }

    /// Whether there is a stream.
    pub fn has_active_streams(&self) -> (any: bool)
        ensures
            any == self.any_stream(),
    {
        self.microphone_stream.is_some() || self.system_stream.is_some()
    }
}

/// The messages of a list, between brackets and with commas.
pub open spec fn listed(errors: Seq<Seq<char>>) -> Seq<char> {
    "["@ + comma_separated(errors) + "]"@
}

/// The messages of a list, with commas.
pub open spec fn comma_separated(errors: Seq<Seq<char>>) -> Seq<char>
    decreases errors.len(),
{
    if errors.len() == 0 {
        Seq::empty()
    } else if errors.len() == 1 {
        errors[0]
    } else {
        comma_separated(errors.drop_last()) + ", "@ + errors.last()
    }
}

/// The failures among the results of stopping both streams.
pub open spec fn stop_failures(
    microphone: Result<(), String>,
    system: Result<(), String>,
) -> Seq<Seq<char>> {
    (match microphone {
        Ok(()) => Seq::<Seq<char>>::empty(),
        Err(why) => seq![why@],
    }) + (match system {
        Ok(()) => Seq::<Seq<char>>::empty(),
        Err(why) => seq![why@],
    })
}

/// The result of stopping both streams, from the result of each (success for a
/// stream that was not there).
pub fn stopped_streams(microphone: Result<(), String>, system: Result<(), String>) -> (result:
    Result<(), String>)
    ensures
        result is Ok <==> microphone is Ok && system is Ok,
        result is Err ==> result->Err_0@ == "Failed to stop some streams: "@ + listed(
            stop_failures(microphone, system),
        ),
{
    let ghost failures = stop_failures(microphone, system);
    let inner = match (microphone, system) {
        (Ok(()), Ok(())) => return Ok(()),
        (Err(mic), Ok(())) => {
            proof {
                assert(failures =~= seq![mic@]);
                assert(comma_separated(failures) == mic@);
            }
            mic
        },
        (Ok(()), Err(sys)) => {
            proof {
                assert(failures =~= seq![sys@]);
                assert(comma_separated(failures) == sys@);
            }
            sys
        },
        (Err(mic), Err(sys)) => {
            proof {
                assert(failures =~= seq![mic@, sys@]);
                assert(failures.drop_last() =~= seq![mic@]);
                assert(comma_separated(failures.drop_last()) == mic@);
                assert(failures.last() == sys@);
            }
            enclosed(mic.as_str(), ", ", sys.as_str())
        },
    };
    let list = enclosed("[", inner.as_str(), "]");
    Err(joined("Failed to stop some streams: ", list.as_str()))
}

// ---------------------------------------------------------------------------
// Laws
// ---------------------------------------------------------------------------

/// How many steps a start still takes at most.
pub open spec fn steps_left(stage: StartStage) -> nat {
    match stage {
        StartStage::CreateMicrophone { .. } => 4,
        StartStage::MarkMicrophone { .. } => 3,
        StartStage::CreateSystem { .. } => 2,
        StartStage::MarkSystem { .. } => 1,
        _ => 0,
    }
}

/// Starting always ends, and a start that succeeds leaves a running stream.
pub proof fn start_ends_with_a_stream<C, T, F>(
    manager: AudioStreamManager<C, T, F>,
    reply: Result<AudioStream<C, T, F>, String>,
)
    ensures
        manager.stage is CreateMicrophone || manager.stage is CreateSystem ==> steps_left(
            manager.after_created(reply).stage,
        ) < steps_left(manager.stage),
        manager.stage is MarkMicrophone || manager.stage is MarkSystem ==> steps_left(
            manager.after_marked().stage,
        ) < steps_left(manager.stage),
        manager.after_created(reply).stage is Started && !(manager.stage is Started)
            ==> manager.after_created(reply).any_stream(),
        manager.after_marked().stage is Started && !(manager.stage is Started)
            ==> manager.after_marked().any_stream(),
{
}

/// A microphone that fails ends the start with its own error, without trying
/// system audio; system audio that fails next to a running microphone does not
/// end it with an error.
pub proof fn only_the_microphone_is_required<C, T, F>(
    manager: AudioStreamManager<C, T, F>,
    microphone: AudioDevice,
    system: Option<AudioDevice>,
    why: String,
)
    ensures
        manager.after_start(Some(microphone), system).after_created(Err(why)).stage
            == StartStage::Failed(StartFailure::Microphone(why)),
        manager.microphone_stream is Some && system is Some ==> manager.after_start(
            None,
            system,
        ).after_created(Err(why)).stage is Started,
{
}

/// After both streams were handed out to be stopped, a new start with no device at
/// all fails.
pub proof fn nothing_to_start<C, T, F>(manager: AudioStreamManager<C, T, F>)
    requires
        !manager.any_stream(),
    ensures
        manager.after_start(None, None).stage == StartStage::Failed(StartFailure::NoStreams),
{
}

} // verus!
