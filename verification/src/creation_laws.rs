//! What the creation of a stream comes to as a whole: what is captured from where, how
//! it is stopped again, and why there is no stream.

use crate::creation::{
    creation_ends, first_stage, replies_left, CreationFailure, CreationReply,
    CreationStage, StreamCreation, TapError,
};
use crate::device::{AudioDevice, Platform};
use crate::linux::sink_label;
use crate::pulse::{input_source, monitor_source, SinkInfo, SourceInfo};
use crate::stream::{stop_of, AudioCaptureBackend, CaptureKind, StreamBackend, StreamStop};
use crate::text::{occurs_at, occurs_in};
use vstd::prelude::*;

verus! {

/// What a creation finds around it: the answer to everything that it asks for.
pub struct Surroundings<C, T, F> {
    pub tap: Result<T, TapError>,
    pub sinks: Result<Vec<SinkInfo>, String>,
    pub sources: Result<Vec<SourceInfo>, String>,
    /// Whether a record stream can be opened on a source of the server.
    pub opened: spec_fn(Seq<char>) -> Result<(), String>,
    pub reading: Result<(F, T), String>,
    pub host: Result<C, String>,
}

impl<C, T, F> Surroundings<C, T, F> {
    /// What comes of doing what the stage of a creation says.
    pub open spec fn reply(self, creation: StreamCreation<C, T, F>) -> CreationReply<C, T, F> {
        match creation.stage {
            CreationStage::CreateTap => CreationReply::Tap(self.tap),
            CreationStage::ListSinks => CreationReply::Sinks(self.sinks),
            CreationStage::ListSources => CreationReply::Sources(self.sources),
            CreationStage::OpenMonitor | CreationStage::OpenSource => CreationReply::Opened(
                (self.opened)(creation.record_source()->0),
            ),
            CreationStage::ReadMonitor | CreationStage::ReadSource => CreationReply::Reading(
                self.reading,
            ),
            _ => CreationReply::Host(self.host),
        }
    }
}

/// The creation once everything is done that it says.
pub open spec fn outcome<C, T, F>(
    creation: StreamCreation<C, T, F>,
    around: Surroundings<C, T, F>,
) -> StreamCreation<C, T, F>
    decreases replies_left(creation.stage),
{
    if creation.stage is Running || creation.stage is Failed {
        creation
    } else {
        proof {
            creation_ends(creation, around.reply(creation));
        }
        outcome(creation.after(around.reply(creation)), around)
    }
}

/// What is captured, or why nothing is.
pub enum Captured<C, T, F> {
    /// A stream of the audio host.
    Host(C),
    /// A tap, read by a task.
    Tap(T),
    /// A source of the server, read by a task that a flag stops.
    Source { name: Seq<char>, flag: F, task: T },
    /// Nothing.
    Nothing(CreationFailure),
}

/// What comes of the audio host.
pub open spec fn by_host<C, T, F>(around: Surroundings<C, T, F>) -> Captured<C, T, F> {
    match around.host {
        Ok(stream) => Captured::Host(stream),
        Err(why) => Captured::Nothing(CreationFailure::Host(why)),
    }
}

/// What is to be captured for a device. Linux asks the server: system audio comes from
/// the monitor of the sink that the device names and from nowhere else, a microphone
/// from the source that it names, and from the audio host where that does not work. A
/// macOS machine with the Core Audio backend taps system audio. Everything else comes
/// from the audio host.
pub open spec fn captured<C, T, F>(
    device: AudioDevice,
    platform: Platform,
    kind: CaptureKind,
    backend: AudioCaptureBackend,
    around: Surroundings<C, T, F>,
) -> Captured<C, T, F> {
    if platform == Platform::Linux && kind == CaptureKind::System {
        match around.sinks {
            Err(why) => Captured::Nothing(CreationFailure::NoSinks(why)),
            Ok(sinks) => match monitor_source(sinks@, sink_label(device.name@)) {
                None => Captured::Nothing(CreationFailure::NoSink),
                Some(name) => match ((around.opened)(name), around.reading) {
                    (Err(why), _) => Captured::Nothing(CreationFailure::Open(why)),
                    (_, Err(why)) => Captured::Nothing(CreationFailure::Thread(why)),
                    (_, Ok((flag, task))) => Captured::Source { name, flag, task },
                },
            },
        }
    } else if platform == Platform::Linux {
        match around.sources {
            Err(_) => by_host(around),
            Ok(sources) => match input_source(sources@, device.name@) {
                None => by_host(around),
                Some(name) => match ((around.opened)(name), around.reading) {
                    (Ok(()), Ok((flag, task))) => Captured::Source { name, flag, task },
                    _ => by_host(around),
                },
            },
        }
    } else if platform == Platform::MacOs && kind == CaptureKind::System && backend
        == AudioCaptureBackend::CoreAudio {
        match around.tap {
            Ok(task) => Captured::Tap(task),
            Err(why) => Captured::Nothing(CreationFailure::Tap(why)),
        }
    } else {
        by_host(around)
    }
}

/// The creation ended with this: a stream that is stopped in the way that fits what is
/// captured, or no stream.
pub open spec fn ended_with<C, T, F>(
    end: StreamCreation<C, T, F>,
    what: Captured<C, T, F>,
) -> bool {
    match what {
        // A stream of the host is paused, so that no callback runs, and dropped.
        Captured::Host(stream) => {
            &&& end.stage is Running
            &&& end.failure is None
            &&& end.backend is Some
            &&& stop_of(end.backend->0) == StreamStop::<C, T, F>::PauseAndDrop(stream)
        },
        // The task that reads a tap is aborted.
        Captured::Tap(task) => {
            &&& end.stage is Running
            &&& end.failure is None
            &&& end.backend is Some
            &&& stop_of(end.backend->0) == StreamStop::<C, T, F>::Abort(Some(task))
        },
        // What reads a source of the server is told to stop by its very flag, and
        // joined.
        Captured::Source { name, flag, task } => {
            &&& end.stage is Running
            &&& end.failure is None
            &&& end.backend is Some
            &&& stop_of(end.backend->0) == (StreamStop::<C, T, F>::RaiseAndJoin {
                should_stop: flag,
                task: Some(task),
            })
        },
        Captured::Nothing(failure) => {
            &&& end.stage is Failed
            &&& end.failure == Some(failure)
            &&& end.backend is None
        },
    }
}

/// A creation that has just begun, for a device.
pub open spec fn has_begun<C, T, F>(
    creation: StreamCreation<C, T, F>,
    device: AudioDevice,
    platform: Platform,
    kind: CaptureKind,
    backend: AudioCaptureBackend,
) -> bool {
    &&& creation.device == device
    &&& creation.stage == first_stage(platform, kind, backend)
    &&& creation.backend is None
    &&& creation.failure is None
}

/// Creating a stream captures exactly what is to be captured for the device, from the
/// source that it names, and gives a stream that can be stopped again; or no stream,
/// for exactly the reason that there is.
pub proof fn creation_captures_the_device<C, T, F>(
    creation: StreamCreation<C, T, F>,
    device: AudioDevice,
    platform: Platform,
    kind: CaptureKind,
    backend: AudioCaptureBackend,
    around: Surroundings<C, T, F>,
)
    requires
        has_begun(creation, device, platform, kind, backend),
    ensures
        ended_with(
            outcome(creation, around),
            captured(device, platform, kind, backend, around),
        ),
        outcome(creation, around).device == device,
{
    reveal_with_fuel(outcome, 5);
}

/// What reads a source of the server can be told to stop, even where there is no time
/// to wait for it: every stream that is captured from a source carries the very flag
/// and the very task that it was started with.
pub proof fn reading_can_be_stopped<C, T, F>(
    creation: StreamCreation<C, T, F>,
    flag: F,
    task: T,
)
    requires
        creation.stage is ReadMonitor || creation.stage is ReadSource,
    ensures
        ({
            let end = creation.after(CreationReply::Reading(Ok((flag, task))));
            &&& end.stage is Running
            &&& end.backend == Some(
                StreamBackend::<C, T, F>::Pulse { should_stop: flag, task: Some(task) },
            )
            &&& stop_of(end.backend->0) == (StreamStop::<C, T, F>::RaiseAndJoin {
                should_stop: flag,
                task: Some(task),
            })
        }),
{
}

/// What is told of a creation that failed ends with the reason that was given for it,
/// and names the sink where that is what failed.
pub proof fn failure_tells_its_reason<C, T, F>(creation: StreamCreation<C, T, F>)
    ensures
        creation.failure is None <==> creation.failure_text() is None,
        match creation.failure {
            Some(CreationFailure::Tap(TapError::Capture(why))) => why@.is_suffix_of(
                creation.failure_text()->0,
            ),
            Some(CreationFailure::Tap(TapError::Stream(why))) => why@.is_suffix_of(
                creation.failure_text()->0,
            ),
            Some(CreationFailure::NoSinks(why)) => why@.is_suffix_of(creation.failure_text()->0)
                && occurs_in(creation.failure_text()->0, sink_label(creation.device.name@)),
            Some(CreationFailure::NoSink) => occurs_in(
                creation.failure_text()->0,
                sink_label(creation.device.name@),
            ),
            Some(CreationFailure::Open(why)) => why@.is_suffix_of(creation.failure_text()->0),
            Some(CreationFailure::Thread(why)) => why@.is_suffix_of(creation.failure_text()->0),
            Some(CreationFailure::Host(why)) => creation.failure_text() == Some(why@),
            None => true,
        },
{
    if creation.failure is Some {
        let text = creation.failure_text()->0;
        let end = text.len() as int;
        let label = sink_label(creation.device.name@);
        let at = "Failed to resolve PulseAudio sink '"@.len() as int;
        match creation.failure->0 {
            CreationFailure::Tap(TapError::Capture(why)) => {
                assert(text.subrange(end - why@.len(), end) =~= why@);
            },
            CreationFailure::Tap(TapError::Stream(why)) => {
                assert(text.subrange(end - why@.len(), end) =~= why@);
            },
            CreationFailure::NoSinks(why) => {
                assert(text.subrange(end - why@.len(), end) =~= why@);
                assert(text.subrange(at, at + label.len()) =~= label);
                assert(occurs_at(text, label, at));
            },
            CreationFailure::NoSink => {
                assert(text.subrange(at, at + label.len()) =~= label);
                assert(occurs_at(text, label, at));
            },
            CreationFailure::Open(why) => {
                assert(text.subrange(end - why@.len(), end) =~= why@);
            },
            CreationFailure::Thread(why) => {
                assert(text.subrange(end - why@.len(), end) =~= why@);
            },
            CreationFailure::Host(_) => {},
        }
    }
}

} // verus!
