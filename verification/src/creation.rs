//! Creating a capture stream for a device.
//!
//! On macOS, system audio goes through the configured backend. On Linux it is
//! captured from the server, and so are microphones where the server knows them.
//! Everything else goes through the audio host.

use crate::device::{AudioDevice, Platform};
use crate::linux::{
    sink_label, sink_label_of, stored_microphone_row_is_found_again,
    stored_system_audio_row_is_found_again, system_audio_name,
};
use crate::pulse::{
    input_source, monitor_source, not_found_text, offered_sinks, offered_sources,
    resolve_monitor_source, resolve_source, sink_entries, sink_pairs, source_entries, NotFound,
    SinkInfo, SourceInfo,
};
use crate::pulse_capture::CaptureTarget;
use crate::pulse_laws::stands_apart;
use crate::stream::{AudioCaptureBackend, AudioStream, CaptureKind, StreamBackend};
use crate::text::{enclosed, is_white_space, joined, optional, trimmed};
use vstd::prelude::*;

verus! {

/// How far a creation is, and with that what to do next.
#[derive(Clone, Copy, Debug, PartialEq, Eq, Structural)]
pub enum CreationStage {
    /// Create a Core Audio tap, and a task that reads it.
    CreateTap,
    /// List the sinks of the server.
    ListSinks,
    /// Open a record stream on the monitor source of the sink.
    OpenMonitor,
    /// Start a thread that reads the record stream.
    ReadMonitor,
    /// List the sources of the server.
    ListSources,
    /// Open a record stream on the source.
    OpenSource,
    /// Start a task that reads the record stream.
    ReadSource,
    /// Open and start a stream of the audio host.
    OpenHost,
    /// The stream runs.
    Running,
    /// There is no stream.
    Failed,
}

/// Why there is no tap.
#[derive(Debug, PartialEq, Eq)]
pub enum TapError {
    /// The capture could not be created.
    Capture(String),
    /// The stream of the capture could not be created.
    Stream(String),
}

/// What came of doing what a stage says.
#[derive(Debug)]
pub enum CreationReply<C, T, F> {
    /// The task that reads the tap.
    Tap(Result<T, TapError>),
    /// The sinks that the server reports.
    Sinks(Result<Vec<SinkInfo>, String>),
    /// The sources that the server reports.
    Sources(Result<Vec<SourceInfo>, String>),
    /// Whether the record stream is open.
    Opened(Result<(), String>),
    /// The flag that stops what reads the record stream, and what reads it.
    Reading(Result<(F, T), String>),
    /// The stream of the audio host.
    Host(Result<C, String>),
}

/// Why there is no stream.
#[derive(Debug, PartialEq, Eq)]
pub enum CreationFailure {
    /// There is no tap.
    Tap(TapError),
    /// The sinks of the server could not be listed.
    NoSinks(String),
    /// The server does not know the sink.
    NoSink,
    /// The record stream could not be opened.
    Open(String),
    /// The thread that reads the record stream could not be started.
    Thread(String),
    /// The audio host failed.
    Host(String),
}

/// The creation of a stream.
#[derive(Debug)]
pub struct StreamCreation<C, T, F> {
    pub device: AudioDevice,
    pub stage: CreationStage,
    /// The sinks that the server reported.
    pub sinks: Vec<SinkInfo>,
    /// The sources that the server reported.
    pub sources: Vec<SourceInfo>,
    pub backend: Option<StreamBackend<C, T, F>>,
    pub failure: Option<CreationFailure>,
}

/// What to try first.
pub open spec fn first_stage(
    platform: Platform,
    kind: CaptureKind,
    backend: AudioCaptureBackend,
) -> CreationStage {
    match (platform, kind) {
        (Platform::MacOs, CaptureKind::System) => if backend is CoreAudio {
            CreationStage::CreateTap
        } else {
            CreationStage::OpenHost
        },
        (Platform::Linux, CaptureKind::System) => CreationStage::ListSinks,
        (Platform::Linux, CaptureKind::Microphone) => CreationStage::ListSources,
        _ => CreationStage::OpenHost,
    }
}

/// The reply belongs to the stage.
pub open spec fn answers<C, T, F>(stage: CreationStage, reply: CreationReply<C, T, F>) -> bool {
    match stage {
        CreationStage::CreateTap => reply is Tap,
        CreationStage::ListSinks => reply is Sinks,
        CreationStage::OpenMonitor => reply is Opened,
        CreationStage::ReadMonitor => reply is Reading,
        CreationStage::ListSources => reply is Sources,
        CreationStage::OpenSource => reply is Opened,
        CreationStage::ReadSource => reply is Reading,
        CreationStage::OpenHost => reply is Host,
        _ => false,
    }
}

impl<C, T, F> StreamCreation<C, T, F> {
    /// The creation goes on to a stage.
    pub open spec fn at(self, stage: CreationStage) -> Self {
        StreamCreation { stage, ..self }
    }

    /// The stream runs on a backend.
    pub open spec fn runs(self, backend: StreamBackend<C, T, F>) -> Self {
        StreamCreation { backend: Some(backend), stage: CreationStage::Running, ..self }
    }

    /// The creation ends with a failure.
    pub open spec fn fails(self, failure: CreationFailure) -> Self {
        StreamCreation { failure: Some(failure), stage: CreationStage::Failed, ..self }
    }

    /// The creation after a reply. A microphone that cannot be had from the server (a
    /// stale preference, or a server that cannot be reached) is looked for on the
    /// audio host; every other failure ends the creation. A reply that does not
    /// belong to the stage changes nothing.
    pub open spec fn after(self, reply: CreationReply<C, T, F>) -> Self {
        match (self.stage, reply) {
            (CreationStage::CreateTap, CreationReply::Tap(Ok(task))) => self.runs(
                StreamBackend::CoreAudio { task: Some(task) },
            ),
            (CreationStage::CreateTap, CreationReply::Tap(Err(why))) => self.fails(
                CreationFailure::Tap(why),
            ),
            (CreationStage::ListSinks, CreationReply::Sinks(Ok(reports))) => {
                if monitor_source(reports@, sink_label(self.device.name@)) is Some {
                    StreamCreation { sinks: reports, ..self }.at(CreationStage::OpenMonitor)
                } else {
                    StreamCreation { sinks: reports, ..self }.fails(CreationFailure::NoSink)
                }
            },
            (CreationStage::ListSinks, CreationReply::Sinks(Err(why))) => self.fails(
                CreationFailure::NoSinks(why),
            ),
            (CreationStage::OpenMonitor, CreationReply::Opened(Ok(()))) => self.at(
                CreationStage::ReadMonitor,
            ),
            (CreationStage::OpenMonitor, CreationReply::Opened(Err(why))) => self.fails(
                CreationFailure::Open(why),
            ),
            (CreationStage::ReadMonitor, CreationReply::Reading(Ok((flag, task)))) => self.runs(
                StreamBackend::Pulse { should_stop: flag, task: Some(task) },
            ),
            (CreationStage::ReadMonitor, CreationReply::Reading(Err(why))) => self.fails(
                CreationFailure::Thread(why),
            ),
            (CreationStage::ListSources, CreationReply::Sources(Ok(reports))) => {
                if input_source(reports@, self.device.name@) is Some {
                    StreamCreation { sources: reports, ..self }.at(CreationStage::OpenSource)
                } else {
                    StreamCreation { sources: reports, ..self }.at(CreationStage::OpenHost)
                }
            },
            (CreationStage::ListSources, CreationReply::Sources(Err(_))) => self.at(
                CreationStage::OpenHost,
            ),
            (CreationStage::OpenSource, CreationReply::Opened(Ok(()))) => self.at(
                CreationStage::ReadSource,
            ),
            (CreationStage::OpenSource, CreationReply::Opened(Err(_))) => self.at(
                CreationStage::OpenHost,
            ),
            (CreationStage::ReadSource, CreationReply::Reading(Ok((flag, task)))) => self.runs(
                StreamBackend::Pulse { should_stop: flag, task: Some(task) },
            ),
            (CreationStage::ReadSource, CreationReply::Reading(Err(_))) => self.at(
                CreationStage::OpenHost,
            ),
            (CreationStage::OpenHost, CreationReply::Host(Ok(stream))) => self.runs(
                StreamBackend::Cpal(stream),
            ),
            (CreationStage::OpenHost, CreationReply::Host(Err(why))) => self.fails(
                CreationFailure::Host(why),
            ),
            _ => self,
        }
    }

    /// The server's name for the source to record from.
    pub open spec fn record_source(self) -> Option<Seq<char>> {
        match self.stage {
            CreationStage::OpenMonitor => monitor_source(
                self.sinks@,
                sink_label(self.device.name@),
            ),
            CreationStage::OpenSource => input_source(self.sources@, self.device.name@),
            _ => None,
        }
    }

    /// The message for the failure of the creation, if it failed.
    pub open spec fn failure_text(self) -> Option<Seq<char>> {
        let label = sink_label(self.device.name@);
        match self.failure {
            None => None,
            Some(CreationFailure::Tap(TapError::Capture(why))) => Some(
                "Failed to create Core Audio capture: "@ + why@,
            ),
            Some(CreationFailure::Tap(TapError::Stream(why))) => Some(
                "Failed to create Core Audio stream: "@ + why@,
            ),
            Some(CreationFailure::NoSinks(why)) => Some(
                "Failed to resolve PulseAudio sink '"@ + label + "': "@ + why@,
            ),
            Some(CreationFailure::NoSink) => Some(
                "Failed to resolve PulseAudio sink '"@ + label + "': "@ + not_found_text(
                    "sink"@,
                    label,
                ),
            ),
            Some(CreationFailure::Open(why)) => Some(
                "Failed to open PulseAudio record stream: "@ + why@,
            ),
            Some(CreationFailure::Thread(why)) => Some(
                "Failed to spawn audio capture thread: "@ + why@,
            ),
            Some(CreationFailure::Host(why)) => Some(why@),
        }
    }
}

impl<C, T, F> AudioStream<C, T, F> {
    /// Create a stream for a device, with the backend that is configured.
    pub fn create(
        device: AudioDevice,
        platform: Platform,
        kind: CaptureKind,
        configured: AudioCaptureBackend,
    ) -> (creation: StreamCreation<C, T, F>)
        ensures
            creation.device == device,
            creation.stage == first_stage(platform, kind, configured),
            creation.sinks@ == Seq::<SinkInfo>::empty(),
            creation.sources@ == Seq::<SourceInfo>::empty(),
            creation.backend is None,
            creation.failure is None,
    {
        Self::create_with_backend(device, platform, kind, configured)
    }

    /// Create a stream for a device, with a given backend.
    pub fn create_with_backend(
        device: AudioDevice,
        platform: Platform,
        kind: CaptureKind,
        backend: AudioCaptureBackend,
    ) -> (creation: StreamCreation<C, T, F>)
        ensures
            creation.device == device,
            creation.stage == first_stage(platform, kind, backend),
            creation.sinks@ == Seq::<SinkInfo>::empty(),
            creation.sources@ == Seq::<SourceInfo>::empty(),
            creation.backend is None,
            creation.failure is None,
    {
        let stage = match platform {
            Platform::MacOs => match kind {
                CaptureKind::System => match backend {
                    AudioCaptureBackend::CoreAudio => CreationStage::CreateTap,
                    AudioCaptureBackend::ScreenCaptureKit => CreationStage::OpenHost,
                },
                CaptureKind::Microphone => CreationStage::OpenHost,
            },
            Platform::Linux => match kind {
                CaptureKind::System => CreationStage::ListSinks,
                CaptureKind::Microphone => CreationStage::ListSources,
            },
            _ => CreationStage::OpenHost,
        };
        StreamCreation {
            device,
            stage,
            sinks: Vec::new(),
            sources: Vec::new(),
            backend: None,
            failure: None,
        }
    }
}

impl<C, T, F> StreamCreation<C, T, F> {
    fn run_on(&mut self, backend: StreamBackend<C, T, F>)
        ensures
            *final(self) == old(self).runs(backend),
    {
        self.backend = Some(backend);
        self.stage = CreationStage::Running;
    }

    fn fail(&mut self, failure: CreationFailure)
        ensures
            *final(self) == old(self).fails(failure),
    {
        self.failure = Some(failure);
        self.stage = CreationStage::Failed;
    }

    /// Take in what came of doing what the stage says.
    pub fn step(&mut self, reply: CreationReply<C, T, F>)
        ensures
            *final(self) == old(self).after(reply),
    {
        match (self.stage, reply) {
            (CreationStage::CreateTap, CreationReply::Tap(Ok(task))) => {
                self.run_on(StreamBackend::CoreAudio { task: Some(task) });
            },
            (CreationStage::CreateTap, CreationReply::Tap(Err(why))) => {
                self.fail(CreationFailure::Tap(why));
            },
            (CreationStage::ListSinks, CreationReply::Sinks(Ok(reports))) => {
                let known = resolve_monitor_source(
                    &reports,
                    sink_label_of(self.device.name.as_str()),
                ).is_ok();
                self.sinks = reports;
                if known {
                    self.stage = CreationStage::OpenMonitor;
                } else {
                    self.fail(CreationFailure::NoSink);
                }
            },
            (CreationStage::ListSinks, CreationReply::Sinks(Err(why))) => {
                self.fail(CreationFailure::NoSinks(why));
            },
            (CreationStage::OpenMonitor, CreationReply::Opened(Ok(()))) => {
                self.stage = CreationStage::ReadMonitor;
            },
            (CreationStage::OpenMonitor, CreationReply::Opened(Err(why))) => {
                self.fail(CreationFailure::Open(why));
            },
            (CreationStage::ReadMonitor, CreationReply::Reading(Ok((flag, task)))) => {
                self.run_on(StreamBackend::Pulse { should_stop: flag, task: Some(task) });
            },
            (CreationStage::ReadMonitor, CreationReply::Reading(Err(why))) => {
                self.fail(CreationFailure::Thread(why));
            },
            (CreationStage::ListSources, CreationReply::Sources(Ok(reports))) => {
                let known = resolve_source(&reports, self.device.name.as_str()).is_ok();
                self.sources = reports;
                self.stage = if known {
                    CreationStage::OpenSource
                } else {
                    CreationStage::OpenHost
                };
            },
            (CreationStage::ListSources, CreationReply::Sources(Err(_))) => {
                self.stage = CreationStage::OpenHost;
            },
            (CreationStage::OpenSource, CreationReply::Opened(Ok(()))) => {
                self.stage = CreationStage::ReadSource;
            },
            (CreationStage::OpenSource, CreationReply::Opened(Err(_))) => {
                self.stage = CreationStage::OpenHost;
            },
            (CreationStage::ReadSource, CreationReply::Reading(Ok((flag, task)))) => {
                self.run_on(StreamBackend::Pulse { should_stop: flag, task: Some(task) });
            },
            (CreationStage::ReadSource, CreationReply::Reading(Err(_))) => {
                self.stage = CreationStage::OpenHost;
            },
            (CreationStage::OpenHost, CreationReply::Host(Ok(stream))) => {
                self.run_on(StreamBackend::Cpal(stream));
            },
            (CreationStage::OpenHost, CreationReply::Host(Err(why))) => {
                self.fail(CreationFailure::Host(why));
            },
            _ => {},
        }
    }

    /// The source to record from, and what is captured there.
    pub fn source(&self) -> (source: Option<(String, CaptureTarget)>)
        ensures
            match source {
                Some((name, target)) => {
                    &&& self.record_source() == Some(name@)
                    &&& target is System <==> self.stage is OpenMonitor
                },
                None => self.record_source() is None,
            },
    {
        match self.stage {
            CreationStage::OpenMonitor => {
                match resolve_monitor_source(
                    &self.sinks,
                    sink_label_of(self.device.name.as_str()),
                ) {
                    Ok(name) => Some((name, CaptureTarget::System)),
                    Err(_) => None,
                }
            },
            CreationStage::OpenSource => {
                match resolve_source(&self.sources, self.device.name.as_str()) {
                    Ok(name) => Some((name, CaptureTarget::Microphone)),
                    Err(_) => None,
                }
            },
            _ => None,
        }
    }

    /// The message for the failure of the creation, if it failed.
    pub fn failure_message(&self) -> (message: Option<String>)
        ensures
            optional(message) == self.failure_text(),
    {
        let label = sink_label_of(self.device.name.as_str());
        match &self.failure {
            None => None,
            Some(CreationFailure::Tap(TapError::Capture(why))) => Some(
                joined("Failed to create Core Audio capture: ", why.as_str()),
            ),
            Some(CreationFailure::Tap(TapError::Stream(why))) => Some(
                joined("Failed to create Core Audio stream: ", why.as_str()),
            ),
            Some(CreationFailure::NoSinks(why)) => {
                let before = enclosed("Failed to resolve PulseAudio sink '", label, "': ");
                Some(joined(before.as_str(), why.as_str()))
            },
            Some(CreationFailure::NoSink) => {
                let before = enclosed("Failed to resolve PulseAudio sink '", label, "': ");
                let why = NotFound { kind: "sink".to_owned(), stored: label.to_owned() };
                Some(joined(before.as_str(), why.message().as_str()))
            },
            Some(CreationFailure::Open(why)) => Some(
                joined("Failed to open PulseAudio record stream: ", why.as_str()),
            ),
            Some(CreationFailure::Thread(why)) => Some(
                joined("Failed to spawn audio capture thread: ", why.as_str()),
            ),
            Some(CreationFailure::Host(why)) => Some(why.clone()),
        }
    }

    /// The stream, once it runs.
    pub fn into_stream(self) -> (stream: Option<AudioStream<C, T, F>>)
        ensures
            match self.backend {
                Some(backend) => stream is Some && stream->0.device_model() == self.device
                    && stream->0.backend_model() == backend,
                None => stream is None,
            },
    {
        match self.backend {
            Some(backend) => Some(AudioStream::running(self.device, backend)),
            None => None,
        }
    }
}

// ---------------------------------------------------------------------------
// Laws
// ---------------------------------------------------------------------------

/// How many replies a creation still takes at most.
pub open spec fn replies_left(stage: CreationStage) -> nat {
    match stage {
        CreationStage::ListSources => 4,
        CreationStage::OpenSource => 3,
        CreationStage::ListSinks => 3,
        CreationStage::OpenMonitor => 2,
        CreationStage::ReadSource => 2,
        CreationStage::CreateTap => 1,
        CreationStage::ReadMonitor => 1,
        CreationStage::OpenHost => 1,
        CreationStage::Running => 0,
        CreationStage::Failed => 0,
    }
}

/// Every creation ends: a reply that belongs to the stage brings it closer to its
/// end, any other changes nothing.
pub proof fn creation_ends<C, T, F>(
    creation: StreamCreation<C, T, F>,
    reply: CreationReply<C, T, F>,
)
    ensures
        answers(creation.stage, reply) ==> replies_left(creation.after(reply).stage)
            < replies_left(creation.stage),
        !answers(creation.stage, reply) ==> creation.after(reply) == creation,
{
}

/// The stage and what there is to show for it belong together.
pub open spec fn in_step<C, T, F>(creation: StreamCreation<C, T, F>) -> bool {
    &&& creation.backend is Some <==> creation.stage is Running
    &&& creation.failure is Some <==> creation.stage is Failed
    &&& creation.stage is OpenMonitor || creation.stage is OpenSource ==> creation.record_source() is Some
}

/// A creation ends with a stream or with a message that says why there is none, and
/// never with both; and the server is only asked to record from a source that it
/// reported.
pub proof fn creation_gives_a_stream_or_a_reason<C, T, F>(
    creation: StreamCreation<C, T, F>,
    reply: CreationReply<C, T, F>,
)
    requires
        in_step(creation),
    ensures
        in_step(creation.after(reply)),
        creation.stage is Running ==> creation.failure_text() is None,
        creation.stage is Failed ==> creation.failure_text() is Some && creation.backend is None,
{
}

/// System audio that was picked for a sink, stored and read back is recorded from the
/// monitor source of that sink, on a server that still reports the same sinks.
pub proof fn picked_sink_is_recorded<C, T, F>(
    creation: StreamCreation<C, T, F>,
    reports: Vec<SinkInfo>,
    i: int,
)
    requires
        0 <= i < offered_sinks(reports@).len(),
        stands_apart(sink_pairs(sink_entries(reports@)), i),
        offered_sinks(reports@)[i].label.len() > 0,
        !is_white_space(offered_sinks(reports@)[i].label[0]),
        !" (output)"@.is_suffix_of(offered_sinks(reports@)[i].label),
        creation.stage is ListSinks,
        creation.device.name@ == trimmed(system_audio_name(offered_sinks(reports@)[i].label)),
    ensures
        creation.after(CreationReply::Sinks(Ok(reports))).stage is OpenMonitor,
        creation.after(CreationReply::Sinks(Ok(reports))).record_source() == Some(
            offered_sinks(reports@)[i].monitor_source_name,
        ),
{
    stored_system_audio_row_is_found_again(reports@, i);
}

/// A microphone that was picked, stored and read back is recorded from the source
/// that it was offered for, on a server that still reports the same sources.
pub proof fn picked_microphone_is_recorded<C, T, F>(
    creation: StreamCreation<C, T, F>,
    reports: Vec<SourceInfo>,
    i: int,
)
    requires
        0 <= i < offered_sources(reports@).len(),
        stands_apart(source_entries(reports@), i),
        trimmed(offered_sources(reports@)[i].label) == offered_sources(reports@)[i].label,
        creation.stage is ListSources,
        creation.device.name@ == trimmed(offered_sources(reports@)[i].label),
    ensures
        creation.after(CreationReply::Sources(Ok(reports))).stage is OpenSource,
        creation.after(CreationReply::Sources(Ok(reports))).record_source() == Some(
            offered_sources(reports@)[i].source_name,
        ),
{
    stored_microphone_row_is_found_again(reports@, i);
}

/// Where the server is of no use, a microphone on Linux is left to the audio host:
/// nothing that goes wrong with the server ends its creation.
pub proof fn microphone_falls_back_to_the_host<C, T, F>(
    creation: StreamCreation<C, T, F>,
    reply: CreationReply<C, T, F>,
)
    requires
        creation.stage is ListSources || creation.stage is OpenSource
            || creation.stage is ReadSource,
    ensures
        !(creation.after(reply).stage is Failed),
        reply matches CreationReply::Sources(Err(_)) ==> creation.stage is ListSources
            ==> creation.after(reply).stage is OpenHost,
        reply matches CreationReply::Opened(Err(_)) ==> creation.stage is OpenSource
            ==> creation.after(reply).stage is OpenHost,
{
}

} // verus!
