//! What the results of calls come to, and how the results of several calls relate.

use crate::clock::{effective_meeting_name, LocalTime};
use crate::creation::{CreationReply, StreamCreation};
use crate::creation_laws::{captured, Captured, Surroundings};
use crate::device::{
    modelled, parse_audio_device, parsed, AudioDevice, DeviceModel, DeviceNameError, DeviceType,
    Platform,
};
use crate::discovery::{is_new, list_audio_devices};
use crate::linux::{configure_linux_audio, Microphones};
use crate::lookup::{get_device_and_config, DeviceLookup, Listing};
use crate::lookup_laws::found_in;
use crate::pulse::{
    default_sink_label, default_source_label, list_sinks, list_sources, resolve_monitor_source,
    resolve_source, NotFound, PulseSink, PulseSource, SinkInfo, SourceInfo,
};
use crate::pulse_capture::{CaptureError, CaptureTarget, Opened, PulseCapture};
use crate::pulse_wait::{
    poll_connection, poll_operation, ContextState, OperationState, Poll, WaitError,
};
use crate::row_laws::{
    listed_sinks_are_those_with_a_monitor, listed_sources_are_the_real_inputs, occurs_elsewhere,
    says_something,
};
use crate::selection::keeps;
use crate::session::{
    get_reconnection_status, get_recording_state, pause_recording, resume_recording,
    set_microphone_muted, set_system_audio_muted, CommandError, Control, ControlStage,
    DeviceMonitorType, ManagerStatus, MuteChange, MutedSource, Reconnection, ReconnectionStatus,
    RecordingSession, RecordingState,
};
use crate::session_laws::{carried_out, what_is_applied_is_told, ControlWork};
use crate::start::{
    start_recording, start_recording_with_devices, start_recording_with_devices_and_meeting,
    start_recording_with_meeting_name, RecordingPlan, Startup,
};
use crate::start_laws::{
    can_be_had, planned, recording_asked_for, startup_records_what_is_asked_for, PlanModel,
};
use crate::stream::{
    build_stream, stopped_streams, AudioCaptureBackend, AudioStream, CaptureKind, SampleFormat,
    SampleScale, StreamStop,
};
use crate::text::trimmed;
use crate::transcript::{
    meeting_report, segment_of_update, MeetingFacts, MeetingReport, ModelChoice, TranscriptSegment,
    TranscriptUpdate,
};
use vstd::prelude::*;

verus! {

// ---------------------------------------------------------------------------
// Commands on a running recording
// ---------------------------------------------------------------------------

/// A pause that goes through pauses the recording and is told as a pause; a resume
/// resumes it and is told as a resume.
pub proof fn a_command_does_and_tells_what_it_says<M, T, L>(
    session: RecordingSession<M, T, L>,
    pause: ControlStage,
    resume: ControlStage,
    manager: spec_fn(Control) -> Result<(), String>,
    sent: spec_fn(Seq<char>, Seq<char>) -> Result<(), String>,
)
    requires
        session.is_recording,
        session.manager is Some,
        call_ensures(pause_recording::<M, T, L>, (&session,), pause),
        call_ensures(resume_recording::<M, T, L>, (&session,), resume),
    ensures
        carried_out(pause, manager, sent, 3).1 is Done ==> carried_out(pause, manager, sent, 3).0
            == seq![
            ControlWork::Apply(Control::Pause),
            ControlWork::Send("recording-paused"@, "Recording paused"@),
            ControlWork::UpdateTray,
        ],
        carried_out(resume, manager, sent, 3).1 is Done ==> carried_out(resume, manager, sent, 3).0
            == seq![
            ControlWork::Apply(Control::Resume),
            ControlWork::Send("recording-resumed"@, "Recording resumed"@),
            ControlWork::UpdateTray,
        ],
{
    what_is_applied_is_told(Control::Pause, manager, sent, 3);
    what_is_applied_is_told(Control::Resume, manager, sent, 3);
}

/// Without a recording, or without its manager, every command fails, and all for the
/// same reason; otherwise each mutes the one source that it is for, as it is told to.
pub proof fn muting_is_for_one_source<M, T, L>(
    session: RecordingSession<M, T, L>,
    muted: bool,
    microphone: Result<MuteChange, CommandError>,
    system: Result<MuteChange, CommandError>,
    pause: ControlStage,
)
    requires
        call_ensures(set_microphone_muted::<M, T, L>, (&session, muted), microphone),
        call_ensures(set_system_audio_muted::<M, T, L>, (&session, muted), system),
        call_ensures(pause_recording::<M, T, L>, (&session,), pause),
    ensures
        microphone is Ok <==> session.is_recording && session.manager is Some,
        microphone is Ok ==> system is Ok && microphone->Ok_0.source == MutedSource::Microphone
            && system->Ok_0.source == MutedSource::SystemAudio && microphone->Ok_0.muted == muted
            && system->Ok_0.muted == muted,
        microphone is Err ==> system is Err && system->Err_0 == microphone->Err_0 && pause
            == ControlStage::Failed(microphone->Err_0),
{
}

/// What the manager says is what is told, and nothing goes on where there is none.
pub proof fn the_manager_is_taken_at_its_word<D>(
    is_recording: bool,
    status: ManagerStatus<D>,
    zero: D,
    with: RecordingState<D>,
    without: RecordingState<D>,
)
    requires
        call_ensures(get_recording_state::<D>, (is_recording, Some(status), zero), with),
        call_ensures(get_recording_state::<D>, (is_recording, None, zero), without),
    ensures
        with.is_recording == is_recording && without.is_recording == is_recording,
        with.status == status,
        !without.status.is_paused && !without.status.is_active,
        !without.status.is_microphone_muted && !without.status.is_system_audio_muted,
        without.status.recording_duration is None && without.status.active_duration is None,
        without.status.total_pause_duration == zero,
        without.status.current_pause_duration is None,
{
}

/// The device that is gone is told by its own name and use.
pub proof fn the_lost_device_is_told(
    told: Reconnection,
    result: Result<ReconnectionStatus, String>,
)
    requires
        call_ensures(get_reconnection_status, (Some(told),), result),
    ensures
        result is Ok,
        result->Ok_0.is_reconnecting == told.is_reconnecting,
        result->Ok_0.disconnected_device is Some <==> told.disconnected is Some,
        match told.disconnected {
            Some((device, device_type)) => {
                &&& result->Ok_0.disconnected_device->0.name@ == device.name@
                &&& DeviceMonitorType::of_name(
                    result->Ok_0.disconnected_device->0.device_type@,
                ) == Some(device_type)
            },
            None => true,
        },
{
    crate::session::monitor_type_names_are_read_back(DeviceMonitorType::Microphone);
    crate::session::monitor_type_names_are_read_back(DeviceMonitorType::SystemAudio);
}

// ---------------------------------------------------------------------------
// Starting
// ---------------------------------------------------------------------------

/// A caller who asks for a microphone by a name that stands for one that can be had gets
/// that very microphone, and likewise for system audio anywhere but on macOS, whatever
/// the preferences and the default devices are; a caller who gives the meeting a name
/// gets that name. Nobody else decides on them.
pub proof fn a_caller_gets_what_is_asked_for<M, T, L>(
    session: RecordingSession<M, T, L>,
    platform: Platform,
    microphone: String,
    system: String,
    meeting: String,
    around: crate::start_laws::Surroundings<M, T, L>,
    startup: Startup,
)
    requires
        !session.is_recording,
        around.model is Ok,
        can_be_had(around, CaptureKind::Microphone, Some(microphone)),
        can_be_had(around, CaptureKind::System, Some(system)),
        forall|plan: PlanModel| #[trigger] (around.started)(plan) is Ok,
        call_ensures(
            start_recording_with_devices_and_meeting::<M, T, L>,
            (&session, platform, Some(microphone), Some(system), Some(meeting)),
            startup,
        ),
    ensures
        ({
            let (end, left) = crate::start_laws::outcome(startup, session, around);
            let plan = recording_asked_for(
                platform,
                Some(microphone),
                Some(system),
                Some(meeting),
                around,
            );
            &&& end.failure is None
            &&& left.is_recording
            &&& (around.started)(plan) == Ok::<M, String>(left.manager->0)
            &&& plan.microphone == Some(parsed(microphone@)->Ok_0)
            &&& platform != Platform::MacOs ==> plan.system_audio == Some(
                parsed(system@)->Ok_0,
            )
            &&& plan.meeting_name == Some(meeting@)
        }),
{
    startup_records_what_is_asked_for(
        session,
        platform,
        true,
        Some(microphone),
        Some(system),
        Some(meeting),
        around,
    );
}

/// Whichever way a recording is asked for, it is the same startup where the same is asked
/// for: without devices the preferences decide on them, without a name the time does.
pub proof fn every_way_to_start_is_the_same<M, T, L>(
    session: RecordingSession<M, T, L>,
    platform: Platform,
    microphone: Option<String>,
    system: Option<String>,
    plain: Startup,
    unnamed: Startup,
    with_devices: Startup,
    with_devices_unnamed: Startup,
)
    requires
        call_ensures(start_recording::<M, T, L>, (&session, platform), plain),
        call_ensures(
            start_recording_with_meeting_name::<M, T, L>,
            (&session, platform, None),
            unnamed,
        ),
        call_ensures(
            start_recording_with_devices::<M, T, L>,
            (&session, platform, microphone, system),
            with_devices,
        ),
        call_ensures(
            start_recording_with_devices_and_meeting::<M, T, L>,
            (&session, platform, microphone, system, None),
            with_devices_unnamed,
        ),
    ensures
        plain == unnamed,
        with_devices == with_devices_unnamed,
        !plain.by_request && with_devices.by_request,
        with_devices.microphone_name == microphone && with_devices.system_name == system,
        plain.microphone_name is None && plain.system_name is None,
        plain.platform == platform && with_devices.platform == platform,
        plain.failure is Some <==> session.is_recording,
        with_devices.failure == plain.failure,
{
}

/// The manager is asked for the plan of the startup, and a device is looked for that the
/// startup is to find.
pub proof fn the_plan_is_that_of_the_startup(
    startup: Startup,
    plan: RecordingPlan,
    target: Option<AudioDevice>,
)
    requires
        call_ensures(Startup::plan, (&startup,), plan),
        call_ensures(Startup::probe_target, (&startup,), target),
    ensures
        planned(startup).microphone is Some <==> plan.microphone is Some,
        plan.microphone is Some ==> planned(startup).microphone->0 == plan.microphone->0@,
        planned(startup).system_audio is Some <==> plan.system_audio is Some,
        plan.system_audio is Some ==> planned(startup).system_audio->0 == plan.system_audio->0@,
        planned(startup).auto_save == plan.auto_save,
        planned(startup).folder == plan.folder,
        plan.meeting_name is Some ==> planned(startup).meeting_name == Some(plan.meeting_name->0@),
        startup.probed() is Some <==> target is Some,
        target is Some ==> startup.probed()->0 == target->0@,
{
}

// ---------------------------------------------------------------------------
// Streams
// ---------------------------------------------------------------------------

/// The stream that reads from the server is stopped by the very flag and the very task
/// that it was started with, and its flag is the one to raise in a hurry.
pub proof fn a_reading_stream_is_stopped_by_its_flag<C, T, F>(
    creation: StreamCreation<C, T, F>,
    flag: F,
    task: T,
    stream: Option<AudioStream<C, T, F>>,
    signal: Option<&F>,
    stop: StreamStop<C, T, F>,
)
    requires
        creation.stage is ReadMonitor || creation.stage is ReadSource,
        call_ensures(
            StreamCreation::<C, T, F>::into_stream,
            (creation.after(CreationReply::Reading(Ok((flag, task)))),),
            stream,
        ),
        stream is Some ==> call_ensures(
            AudioStream::<C, T, F>::signal_stop_only,
            (&stream->0,),
            signal,
        ),
        stream is Some ==> call_ensures(AudioStream::<C, T, F>::stop, (stream->0,), stop),
    ensures
        stream is Some,
        stream->0.device_model() == creation.device,
        signal == Some(&flag),
        stop == (StreamStop::<C, T, F>::RaiseAndJoin { should_stop: flag, task: Some(task) }),
{
}

/// A stream that is created for a device captures what is to be captured for it, and is
/// a stream of that device.
pub proof fn a_created_stream_is_of_its_device<C, T, F>(
    device: AudioDevice,
    platform: Platform,
    kind: CaptureKind,
    backend: AudioCaptureBackend,
    around: Surroundings<C, T, F>,
    begun: StreamCreation<C, T, F>,
    stream: Option<AudioStream<C, T, F>>,
    stop: StreamStop<C, T, F>,
)
    requires
        call_ensures(
            AudioStream::<C, T, F>::create,
            (device, platform, kind, backend),
            begun,
        ),
        call_ensures(
            StreamCreation::<C, T, F>::into_stream,
            (crate::creation_laws::outcome(begun, around),),
            stream,
        ),
        stream is Some ==> call_ensures(AudioStream::<C, T, F>::stop, (stream->0,), stop),
    ensures
        match captured(device, platform, kind, backend, around) {
            Captured::Nothing(_) => stream is None,
            Captured::Host(held) => stream is Some && stop == StreamStop::<C, T, F>::PauseAndDrop(
                held,
            ),
            Captured::Tap(task) => stream is Some && stop == StreamStop::<C, T, F>::Abort(
                Some(task),
            ),
            Captured::Source { name: _, flag, task } => stream is Some && stop == (StreamStop::<
                C,
                T,
                F,
            >::RaiseAndJoin { should_stop: flag, task: Some(task) }),
        },
        stream is Some ==> stream->0.device_model() == device,
{
    crate::creation_laws::creation_captures_the_device(
        begun,
        device,
        platform,
        kind,
        backend,
        around,
    );
}

/// Where a stream is recorded from the server, what is captured is system audio exactly
/// where it is a monitor that is opened.
pub proof fn a_monitor_is_system_audio<C, T, F>(
    creation: StreamCreation<C, T, F>,
    source: Option<(String, CaptureTarget)>,
)
    requires
        call_ensures(StreamCreation::<C, T, F>::source, (&creation,), source),
    ensures
        match source {
            Some((name, target)) => {
                &&& target is System ==> creation.stage is OpenMonitor
                    && crate::pulse::monitor_source(
                    creation.sinks@,
                    crate::linux::sink_label(creation.device.name@),
                ) == Some(name@)
                &&& target is Microphone ==> creation.stage is OpenSource
                    && crate::pulse::input_source(creation.sources@, creation.device.name@)
                    == Some(name@)
            },
            None => true,
        },
{
}

/// System audio is captured in stereo and a microphone in mono; either way the stream
/// and the flag are those that are given, and what keeps it from opening is told with
/// the source.
pub proof fn system_audio_is_stereo<S, F>(
    name: &str,
    opened: Opened<S>,
    flag: F,
    system: Result<PulseCapture<S, F>, CaptureError>,
    microphone: Result<PulseCapture<S, F>, CaptureError>,
)
    requires
        call_ensures(PulseCapture::<S, F>::new_system, (name, opened, flag), system),
        call_ensures(PulseCapture::<S, F>::new_microphone, (name, opened, flag), microphone),
    ensures
        system is Ok <==> opened is Stream,
        microphone is Ok <==> opened is Stream,
        system is Ok ==> system->Ok_0.channels_model() == 2 * microphone->Ok_0.channels_model()
            && system->Ok_0.channels_model() == 2,
        system is Ok ==> system->Ok_0.stream_model() == opened->Stream_0
            && microphone->Ok_0.stream_model() == opened->Stream_0 && system->Ok_0.stop_model()
            == flag && microphone->Ok_0.stop_model() == flag,
        opened matches Opened::Refused(why) ==> system->Err_0->reason == why
            && system->Err_0->source_name@ == name@ && microphone->Err_0->reason == why
            && microphone->Err_0->source_name@ == name@,
{
}

/// Stopping both streams fails exactly where one of them does not stop, and tells every
/// reason.
pub proof fn every_reason_is_told(
    microphone: Result<(), String>,
    system: Result<(), String>,
    result: Result<(), String>,
)
    requires
        call_ensures(stopped_streams, (microphone, system), result),
    ensures
        result is Ok <==> microphone is Ok && system is Ok,
        match (microphone, system) {
            (Ok(()), Ok(())) => true,
            (Err(one), Ok(())) => result->Err_0@ == "Failed to stop some streams: "@ + ("["@ + one@
                + "]"@),
            (Ok(()), Err(other)) => result->Err_0@ == "Failed to stop some streams: "@ + ("["@
                + other@ + "]"@),
            (Err(one), Err(other)) => result->Err_0@ == "Failed to stop some streams: "@ + ("["@ + (
            one@ + ", "@ + other@) + "]"@),
        },
{
    match (microphone, system) {
        (Err(one), Err(other)) => crate::stream_laws::failures_to_stop_are_told_in_order(
            one,
            other,
        ),
        (Err(one), Ok(())) => crate::stream_laws::failures_to_stop_are_told_in_order(one, one),
        (Ok(()), Err(other)) => crate::stream_laws::failures_to_stop_are_told_in_order(
            other,
            other,
        ),
        _ => {},
    }
}

/// A format that cannot be scaled is told by its name; a sample at full scale becomes
/// one.
pub proof fn formats_are_scaled_or_refused(
    format: SampleFormat,
    result: Result<SampleScale, String>,
)
    requires
        call_ensures(build_stream, (&format,), result),
    ensures
        result is Err <==> format is Other,
        format matches SampleFormat::Other(name) ==> result->Err_0@
            == "Unsupported sample format: "@ + name@,
        result == Ok::<SampleScale, String>(SampleScale::AsIs) <==> format is F32,
        format is I8 ==> result->Ok_0 == SampleScale::DividedBy(0x7f),
        format is I16 ==> result->Ok_0 == SampleScale::DividedBy(0x7fff),
        format is I32 ==> result->Ok_0 == SampleScale::DividedBy(0x7fff_ffff),
{
}

// ---------------------------------------------------------------------------
// Devices
// ---------------------------------------------------------------------------

/// A device that is stored and read again is the same device, but for white space around
/// its name.
pub proof fn a_stored_device_is_read_back(
    device: AudioDevice,
    stored: String,
    result: Result<AudioDevice, DeviceNameError>,
    text: &str,
)
    requires
        call_ensures(AudioDevice::to_string, (&device,), stored),
        text@ == stored@,
        call_ensures(parse_audio_device, (text,), result),
    ensures
        result is Ok,
        result->Ok_0.name@ == trimmed(device.name@),
        result->Ok_0.device_type == device.device_type,
{
    assert(text@ == crate::device::stored_name(device@));
    assert(modelled(result) == Ok::<DeviceModel, DeviceNameError>(
        DeviceModel { name: trimmed(device.name@), device_type: device.device_type },
    ));
}

/// The sources that are listed are exactly those of the reports that have a name and are
/// not the monitor of a sink, in the order of the reports: source `k` is the one of the
/// report at `at[k]`, with its name, its description or else its name, and its name in
/// brackets behind a description that is not its own.
pub proof fn sources_are_the_reported_inputs(
    reports: Vec<SourceInfo>,
    sources: Vec<PulseSource>,
) -> (at: Seq<int>)
    requires
        call_ensures(list_sources, (&reports,), sources),
    ensures
        keeps(
            at,
            reports@.len(),
            |i: int| reports@[i].monitor_of_sink is None && says_something(reports@[i].name),
        ),
        sources@.len() == at.len(),
        forall|k: int|
            0 <= k < at.len() ==> {
                let report = reports@[at[k]];
                let source = #[trigger] sources@[k];
                &&& source.source_name@ == report.name->0@
                &&& source.description@ == if report.description is Some {
                    report.description->0@
                } else {
                    report.name->0@
                }
                &&& source.label@ == source.description@ || source.label@ == source.description@
                    + " ["@ + source.source_name@ + "]"@
            },
        forall|j: int, k: int|
            0 <= j < k < sources@.len() && (#[trigger] sources@[j]).description@ == (
            #[trigger] sources@[k]).description@ ==> sources@[j].label@ == sources@[j].description@
                + " ["@ + sources@[j].source_name@ + "]"@ && sources@[k].label@
                == sources@[k].description@ + " ["@ + sources@[k].source_name@ + "]"@,
{
    let rows = crate::pulse::offered_sources(reports@);
    let at = listed_sources_are_the_real_inputs(reports@);
    assert(crate::pulse::source_models(sources@) == rows);
    assert(rows.len() == sources@.len());
    let descriptions = rows.map_values(|r: crate::pulse::SourceModel| r.description);
    assert forall|k: int| 0 <= k < at.len() implies {
        let report = reports@[at[k]];
        let source = #[trigger] sources@[k];
        &&& source.source_name@ == report.name->0@
        &&& source.description@ == if report.description is Some {
            report.description->0@
        } else {
            report.name->0@
        }
        &&& source.label@ == source.description@ || source.label@ == source.description@ + " ["@
            + source.source_name@ + "]"@
    } by {
        assert(rows[k] == sources@[k]@);
        assert(crate::row_laws::source_row(rows, k, reports@[at[k]]));
    }
    assert forall|j: int, k: int|
        0 <= j < k < sources@.len() && (#[trigger] sources@[j]).description@ == (
        #[trigger] sources@[k]).description@ implies sources@[j].label@ == sources@[j].description@
        + " ["@ + sources@[j].source_name@ + "]"@ && sources@[k].label@ == sources@[k].description@
        + " ["@ + sources@[k].source_name@ + "]"@ by {
        assert(rows[j] == sources@[j]@ && rows[k] == sources@[k]@);
        assert(descriptions[j] == descriptions[k]);
        assert(occurs_elsewhere(descriptions, j) && occurs_elsewhere(descriptions, k));
        assert(crate::row_laws::source_row(rows, j, reports@[at[j]]));
        assert(crate::row_laws::source_row(rows, k, reports@[at[k]]));
    }
    at
}

/// The sinks that are listed are exactly those of the reports that have a monitor source,
/// in the order of the reports: sink `k` is the one of the report at `at[k]`.
pub proof fn sinks_are_the_reported_ones_with_a_monitor(
    reports: Vec<SinkInfo>,
    sinks: Vec<PulseSink>,
) -> (at: Seq<int>)
    requires
        call_ensures(list_sinks, (&reports,), sinks),
    ensures
        keeps(at, reports@.len(), |i: int| says_something(reports@[i].monitor_source_name)),
        sinks@.len() == at.len(),
        forall|k: int|
            0 <= k < at.len() ==> {
                let report = reports@[at[k]];
                let sink = #[trigger] sinks@[k];
                &&& sink.monitor_source_name@ == report.monitor_source_name->0@
                &&& report.name is Some ==> sink.sink_name@ == report.name->0@
                &&& report.name is None ==> sink.sink_name@.len() == 0
                &&& report.description is Some ==> sink.description@ == report.description->0@
                &&& sink.label@ == sink.description@ || sink.label@ == sink.description@ + " ["@
                    + sink.monitor_source_name@ + "]"@
            },
{
    let rows = crate::pulse::offered_sinks(reports@);
    let at = listed_sinks_are_those_with_a_monitor(reports@);
    assert(crate::pulse::sink_models(sinks@) == rows);
    assert(rows.len() == sinks@.len());
    assert forall|k: int| 0 <= k < at.len() implies {
        let report = reports@[at[k]];
        let sink = #[trigger] sinks@[k];
        &&& sink.monitor_source_name@ == report.monitor_source_name->0@
        &&& report.name is Some ==> sink.sink_name@ == report.name->0@
        &&& report.name is None ==> sink.sink_name@.len() == 0
        &&& report.description is Some ==> sink.description@ == report.description->0@
        &&& sink.label@ == sink.description@ || sink.label@ == sink.description@ + " ["@
            + sink.monitor_source_name@ + "]"@
    } by {
        assert(rows[k] == sinks@[k]@);
        assert(crate::row_laws::sink_row(rows, k, reports@[at[k]]));
    }
    at
}

/// What a stored row resolves to is always the name of something that is listed.
pub proof fn what_resolves_is_listed(
    reports: Vec<SinkInfo>,
    sinks: Vec<PulseSink>,
    inputs: Vec<SourceInfo>,
    sources: Vec<PulseSource>,
    stored: &str,
    monitor: Result<String, NotFound>,
    input: Result<String, NotFound>,
)
    requires
        call_ensures(list_sinks, (&reports,), sinks),
        call_ensures(list_sources, (&inputs,), sources),
        call_ensures(resolve_monitor_source, (&reports, stored), monitor),
        call_ensures(resolve_source, (&inputs, stored), input),
    ensures
        monitor is Ok ==> exists|i: int|
            0 <= i < sinks@.len() && (#[trigger] sinks@[i]).monitor_source_name@ == monitor->Ok_0@
                && (sinks@[i].label@ == stored@ || sinks@[i].description@ == stored@),
        monitor is Err <==> forall|i: int|
            0 <= i < sinks@.len() ==> (#[trigger] sinks@[i]).label@ != stored@
                && sinks@[i].description@ != stored@,
        input is Ok ==> exists|i: int|
            0 <= i < sources@.len() && (#[trigger] sources@[i]).source_name@ == input->Ok_0@ && (
            sources@[i].label@ == stored@ || sources@[i].description@ == stored@),
        input is Err <==> forall|i: int|
            0 <= i < sources@.len() ==> (#[trigger] sources@[i]).label@ != stored@
                && sources@[i].description@ != stored@,
        monitor is Err ==> monitor->Err_0.stored@ == stored@ && monitor->Err_0.kind@ == "sink"@,
        input is Err ==> input->Err_0.stored@ == stored@ && input->Err_0.kind@ == "source"@,
{
    let rows = crate::pulse::offered_sinks(reports@);
    let others = crate::pulse::offered_sources(inputs@);
    crate::row_laws::monitor_source_is_that_of_a_row(reports@, stored@);
    crate::row_laws::input_source_is_that_of_a_row(inputs@, stored@);
    assert(crate::pulse::sink_models(sinks@) == rows);
    assert(crate::pulse::source_models(sources@) == others);
    assert(rows.len() == sinks@.len() && others.len() == sources@.len());
    assert forall|i: int| 0 <= i < rows.len() implies #[trigger] rows[i] == sinks@[i]@ by {}
    assert forall|i: int| 0 <= i < sinks@.len() implies rows[i] == (#[trigger] sinks@[i])@ by {}
    assert forall|i: int| 0 <= i < others.len() implies #[trigger] others[i] == sources@[i]@ by {}
    assert forall|i: int| 0 <= i < sources@.len() implies others[i] == (
    #[trigger] sources@[i])@ by {}
}

/// A default that the server does not name has no label; one that it names has the label
/// of something that is listed.
pub proof fn a_default_is_listed(
    name: &str,
    reports: Vec<SinkInfo>,
    sinks: Vec<PulseSink>,
    inputs: Vec<SourceInfo>,
    sources: Vec<PulseSource>,
    output: Option<String>,
    input: Option<String>,
    no_output: Option<String>,
    no_input: Option<String>,
)
    requires
        call_ensures(list_sinks, (&reports,), sinks),
        call_ensures(list_sources, (&inputs,), sources),
        call_ensures(default_sink_label, (Some(name), &reports), output),
        call_ensures(default_source_label, (Some(name), &inputs), input),
        call_ensures(default_sink_label, (None, &reports), no_output),
        call_ensures(default_source_label, (None, &inputs), no_input),
    ensures
        no_output is None && no_input is None,
        output is Some ==> exists|i: int|
            0 <= i < sinks@.len() && (#[trigger] sinks@[i]).label@ == output->0@ && (
            sinks@[i].sink_name@ == name@ || sinks@[i].monitor_source_name@ == name@
                + ".monitor"@),
        input is Some ==> exists|i: int|
            0 <= i < sources@.len() && (#[trigger] sources@[i]).label@ == input->0@
                && sources@[i].source_name@ == name@,
        output is None && name@.len() > 0 ==> forall|i: int|
            0 <= i < sinks@.len() ==> (#[trigger] sinks@[i]).sink_name@ != name@,
        input is None ==> forall|i: int|
            0 <= i < sources@.len() ==> (#[trigger] sources@[i]).source_name@ != name@,
{
    let rows = crate::pulse::offered_sinks(reports@);
    let others = crate::pulse::offered_sources(inputs@);
    crate::row_laws::default_output_is_found_by_its_name(rows, name@);
    crate::row_laws::default_input_is_found_by_its_name(others, name@);
    assert(crate::pulse::sink_models(sinks@) == rows);
    assert(crate::pulse::source_models(sources@) == others);
    assert(rows.len() == sinks@.len() && others.len() == sources@.len());
    assert forall|i: int| 0 <= i < rows.len() implies #[trigger] rows[i] == sinks@[i]@ by {}
    assert forall|i: int| 0 <= i < sinks@.len() implies rows[i] == (#[trigger] sinks@[i])@ by {}
    assert forall|i: int| 0 <= i < others.len() implies #[trigger] others[i] == sources@[i]@ by {}
    assert forall|i: int| 0 <= i < sources@.len() implies others[i] == (
    #[trigger] sources@[i])@ by {}
}

/// On Linux the list is what was configured. Elsewhere the devices of the host follow,
/// each as an output, where it has a name that is not there yet: row `n` behind the
/// configured ones is that of the host's device at `at[n]`.
pub proof fn host_devices_follow_the_configured_ones(
    platform: Platform,
    configured: Vec<AudioDevice>,
    names: Vec<Option<String>>,
    devices: Vec<AudioDevice>,
) -> (at: Seq<int>)
    requires
        call_ensures(list_audio_devices, (platform, configured, Some(names)), devices),
    ensures
        platform is Linux ==> at.len() == 0,
        !(platform is Linux) ==> keeps(
            at,
            names@.len(),
            |k: int|
                is_new(
                    crate::linux::device_models(configured@),
                    crate::discovery::name_models(names@),
                    k,
                ),
        ),
        devices@.len() == configured@.len() + at.len(),
        forall|i: int|
            0 <= i < configured@.len() ==> (#[trigger] devices@[i])@ == configured@[i]@,
        forall|n: int|
            0 <= n < at.len() ==> names@[#[trigger] at[n]] is Some && devices@[configured@.len()
                + n].name@ == names@[at[n]]->0@ && devices@[configured@.len() + n].device_type
                == DeviceType::Output,
{
    let before = crate::linux::device_models(configured@);
    let after = crate::linux::device_models(devices@);
    let all = crate::discovery::name_models(names@);
    assert(after.len() == devices@.len() && before.len() == configured@.len());
    if platform is Linux {
        assert forall|i: int| 0 <= i < configured@.len() implies (#[trigger] devices@[i])@
            == configured@[i]@ by {
            assert(after[i] == devices@[i]@ && before[i] == configured@[i]@);
        }
        Seq::empty()
    } else {
        let at = crate::discovery::host_devices_are_added_in_order(before, all);
        let fresh = |k: int| is_new(before, all, k);
        assert forall|i: int| 0 <= i < configured@.len() implies (#[trigger] devices@[i])@
            == configured@[i]@ by {
            assert(after[i] == devices@[i]@ && before[i] == configured@[i]@);
            assert(after.take(before.len() as int)[i] == after[i]);
        }
        assert forall|n: int| 0 <= n < at.len() implies names@[#[trigger] at[n]] is Some
            && devices@[configured@.len() + n].name@ == names@[at[n]]->0@
            && devices@[configured@.len() + n].device_type == DeviceType::Output by {
            assert(fresh(at[n]));
            assert(all[at[n]] is Some);
            assert(after[before.len() + n] == devices@[configured@.len() + n]@);
        }
        at
    }
}

/// The devices of a Linux machine are its microphones, and then a "System Audio" output
/// for each sink, whether or not the server names the microphones.
pub proof fn sinks_follow_the_microphones(
    sources: Vec<PulseSource>,
    names: Vec<Option<String>>,
    sinks: Vec<PulseSink>,
    with_server: Result<Vec<AudioDevice>, String>,
    without_server: Result<Vec<AudioDevice>, String>,
    i: int,
)
    requires
        call_ensures(
            configure_linux_audio,
            (Microphones::Server(sources), Some(sinks)),
            with_server,
        ),
        call_ensures(
            configure_linux_audio,
            (Microphones::Alsa(Ok(names)), Some(sinks)),
            without_server,
        ),
    ensures
        with_server is Ok && without_server is Ok,
        with_server->Ok_0@.len() == sources@.len() + sinks@.len(),
        without_server->Ok_0@.len() > sinks@.len(),
        0 <= i < sources@.len() ==> with_server->Ok_0@[i].name@ == sources@[i].label@
            && with_server->Ok_0@[i].device_type == DeviceType::Input,
        0 <= i < without_server->Ok_0@.len() - sinks@.len()
            ==> without_server->Ok_0@[i].device_type == DeviceType::Input,
        0 <= i < sinks@.len() ==> {
            let row = with_server->Ok_0@[sources@.len() + i];
            let other = without_server->Ok_0@[without_server->Ok_0@.len() - sinks@.len() + i];
            &&& row.name@ == sinks@[i].label@ + " (System Audio)"@
            &&& row.device_type == DeviceType::Output
            &&& other@ == row@
        },
{
    let inputs = crate::linux::source_devices(sources@);
    let fallback = crate::linux::alsa_devices(names@);
    let outputs = crate::linux::sink_devices(sinks@);
    let with = crate::linux::device_models(with_server->Ok_0@);
    let without = crate::linux::device_models(without_server->Ok_0@);
    let at = crate::row_laws::fallback_inputs_are_the_useful_endpoints(names@);
    crate::row_laws::devices_carry_the_labels(sources@, sinks@);
    assert(with == inputs + outputs);
    assert(without == fallback + outputs);
    assert(with.len() == with_server->Ok_0@.len());
    assert(without.len() == without_server->Ok_0@.len());
    if 0 <= i < sources@.len() {
        assert(with[i] == with_server->Ok_0@[i]@);
    }
    if 0 <= i < without.len() - sinks@.len() {
        assert(without[i] == without_server->Ok_0@[i]@);
        assert(fallback[i].device_type == DeviceType::Input);
    }
    if 0 <= i < sinks@.len() {
        assert(with[sources@.len() + i] == with_server->Ok_0@[sources@.len() + i]@);
        assert(without[without.len() - sinks@.len() + i]
            == without_server->Ok_0@[without.len() - sinks@.len() + i]@);
        assert(outputs[i].name == sinks@[i].label@ + " (System Audio)"@);
    }
}

/// The lookup of an input finds it among the inputs of the host, and on macOS that of an
/// output among its outputs, under its own name.
pub proof fn a_device_is_looked_for_where_it_is(
    device: AudioDevice,
    platform: Platform,
    around: crate::lookup_laws::Surroundings,
    lookup: DeviceLookup,
)
    requires
        call_ensures(get_device_and_config, (&device, platform), lookup),
        forall|listing: Listing, names: Vec<Option<String>>|
            #[trigger] (around.names)(listing) == Ok::<_, String>(names) ==> #[trigger] names@.len()
                <= usize::MAX,
    ensures
        lookup.device == device,
        ({
            let end = crate::lookup_laws::outcome(lookup.stage, device.name@, around);
            &&& device.device_type == DeviceType::Input && platform != Platform::Windows
                ==> found_in(end, Listing::Inputs, device.name@, around)
            &&& device.device_type == DeviceType::Output && platform == Platform::MacOs
                ==> found_in(end, Listing::Outputs, device.name@, around)
            &&& platform == Platform::Windows ==> end is Windows
        }),
{
    crate::lookup_laws::lookup_finds_the_device(device, platform, around);
}

// ---------------------------------------------------------------------------
// Waiting
// ---------------------------------------------------------------------------

/// A wait for an answer is over for good: what is settled stays settled however late it
/// is looked at, and what timed out once is timed out at any later time. Nothing times
/// out before five seconds.
pub proof fn a_wait_for_an_answer_ends(
    state: OperationState,
    early: u64,
    late: u64,
    first: Poll,
    then: Poll,
)
    requires
        early <= late,
        call_ensures(poll_operation, (state, early), first),
        call_ensures(poll_operation, (state, late), then),
    ensures
        !(first is Pump) ==> then == first,
        first is Ready <==> state == OperationState::Done,
        first == Poll::GiveUp(WaitError::Cancelled) <==> state == OperationState::Cancelled,
        first is Pump ==> state == OperationState::Running && early < 5000,
        state == OperationState::Running && early >= 5000 ==> first == Poll::GiveUp(
            WaitError::OperationTimedOut,
        ),
{
}

/// A wait for a connection is over for good, likewise; the state that it was last seen in
/// is told where it timed out.
pub proof fn a_wait_for_a_connection_ends(
    state: ContextState,
    early: u64,
    late: u64,
    first: Poll,
    then: Poll,
)
    requires
        early <= late,
        call_ensures(poll_connection, (state, early), first),
        call_ensures(poll_connection, (state, late), then),
    ensures
        !(first is Pump) ==> then == first,
        first is Ready <==> state == ContextState::Ready,
        first == Poll::GiveUp(WaitError::ConnectionFailed) <==> state == ContextState::Failed
            || state == ContextState::Terminated,
        first is Pump ==> early < 5000,
        first is GiveUp && first != Poll::GiveUp(WaitError::ConnectionFailed) ==> first
            == Poll::GiveUp(WaitError::ConnectionTimedOut(state)) && early >= 5000,
{
}

// ---------------------------------------------------------------------------
// Meetings
// ---------------------------------------------------------------------------

/// The facts with the two devices changed places.
pub open spec fn with_devices_swapped<D>(facts: MeetingFacts<D>) -> MeetingFacts<D> {
    MeetingFacts {
        microphone_name: facts.system_name,
        system_name: facts.microphone_name,
        ..facts
    }
}

/// What is told of each device is told by its own name: where the devices change places,
/// so does what is told of them, and nothing else. Likewise for the two models. The
/// counts and durations are told as they are.
pub proof fn each_device_is_told_by_its_name<D>(
    facts: MeetingFacts<D>,
    transcription: ModelChoice,
    summary: ModelChoice,
    zero: D,
    report: MeetingReport<D>,
    swapped: MeetingReport<D>,
)
    requires
        call_ensures(
            meeting_report::<D>,
            (facts, Some(transcription), Some(summary), zero),
            report,
        ),
        call_ensures(
            meeting_report::<D>,
            (with_devices_swapped(facts), Some(summary), Some(transcription), zero),
            swapped,
        ),
    ensures
        report.microphone_type@ == swapped.system_audio_type@,
        report.system_audio_type@ == swapped.microphone_type@,
        facts.microphone_name is None <==> report.microphone_type@ == "Unknown"@,
        facts.system_name is None <==> report.system_audio_type@ == "Unknown"@,
        report.transcription == transcription && report.summary == summary,
        swapped.transcription == summary && swapped.summary == transcription,
        report.total_duration == facts.total_duration,
        facts.active_duration is Some ==> report.active_duration == facts.active_duration->0,
        facts.active_duration is None ==> report.active_duration == zero,
        report.pause_duration == facts.pause_duration,
        report.chunks_processed == facts.chunks_processed,
        report.transcript_segments == facts.transcript_segments,
        report.had_fatal_error == facts.had_fatal_error,
{
    crate::name_laws::only_nameless_devices_are_unknown(facts.microphone_name);
    crate::name_laws::only_nameless_devices_are_unknown(facts.system_name);
}

/// A segment keeps everything that its update says; its speaker is the one that was
/// decided on, and none where nothing but white space is said of it.
pub proof fn a_segment_keeps_its_update<S, C>(
    update: TranscriptUpdate<S, C>,
    segment: TranscriptSegment<S, C>,
)
    requires
        call_ensures(segment_of_update::<S, C>, (update,), segment),
    ensures
        segment.text == update.text,
        segment.audio_start_time == update.audio_start_time,
        segment.audio_end_time == update.audio_end_time,
        segment.duration == update.duration,
        segment.display_time == update.timestamp,
        segment.confidence == update.confidence,
        segment.sequence_id == update.sequence_id,
        crate::text_laws::number(segment.id@.skip("seg_"@.len() as int)) == update.sequence_id,
        segment.speaker is Some ==> segment.speaker->0 == update.source,
        segment.speaker is None <==> crate::text_laws::is_blank(
            update.source@,
            0,
            update.source@.len() as int,
        ),
{
    crate::name_laws::a_segment_id_tells_the_number(update.sequence_id);
    let ends = crate::text_laws::trimming_takes_off_white_space_only(update.source@);
}

/// A meeting that was given a name goes by it; one that was given none goes by the time
/// at which it starts.
pub proof fn a_meeting_goes_by_its_name(
    given: &str,
    start: LocalTime,
    named: String,
    unnamed: String,
)
    requires
        call_ensures(effective_meeting_name, (Some(given), &start), named),
        call_ensures(effective_meeting_name, (None, &start), unnamed),
    ensures
        named@ == given@,
        unnamed@ == "Meeting "@ + start@.timestamp(),
{
}

} // verus!
