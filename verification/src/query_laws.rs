//! What the answers to questions come to, and how they agree with each other.

use crate::clock::{CivilTime, LocalTime};
use crate::core_audio::{AudioError, TapReader};
use crate::device::{modelled, parse_audio_device, read_as, AudioDevice, DeviceNameError};
use crate::discovery::{
    permission_stage, reply_at, reply_to, trigger_audio_permission, PermissionReply,
    PermissionStage,
};
use crate::linux::is_useful_alsa_endpoint;
use crate::pulse::{
    build_labels, default_sink_label, label_for_sink_name, list_sinks, PulseSink, SinkInfo,
};
use crate::pulse_capture::{
    sample_bytes, CaptureFormat, CaptureLoop, CaptureTarget, PulseCapture,
};
use crate::pulse_wait::{after_pump, pump, AfterPump, Iteration, WaitError, Waiting};
use crate::session::{
    can_enter_compact_mode, get_active_audio_output, get_meeting_folder_path,
    get_recording_meeting_name, get_transcript_history, get_transcription_status, is_recording,
    is_recording_active, is_recording_paused, poll_audio_device_events, DeviceEvent,
    DeviceEventResponse, RecordingSession, TranscriptionStatus,
};
use crate::session_laws::responses_tell_events_apart;
use crate::start::{ModelNotice, StartFailure, StartNotice, Startup};
use crate::stop::{waiting_progress, Shutdown, StopEvent, StopNotice, StopStage, WaitingProgress};
use crate::stream::AudioStreamManager;
use crate::text::{ascii_lowercase, optional};
use crate::transcript::{classify_device_type, keeper_of_segment, SegmentKeeper};
use vstd::prelude::*;
use vstd::utf8::*;

verus! {

// ---------------------------------------------------------------------------
// The recording
// ---------------------------------------------------------------------------

/// Everyone who asks whether a recording is under way gets the same answer, and the
/// window may shrink only during a recording that is not being stopped.
pub proof fn answers_on_the_recording_agree<M, T, L>(
    session: RecordingSession<M, T, L>,
    active: bool,
    recording: bool,
    compact: bool,
    status: TranscriptionStatus,
)
    requires
        call_ensures(is_recording_active::<M, T, L>, (&session,), active),
        call_ensures(is_recording::<M, T, L>, (&session,), recording),
        call_ensures(can_enter_compact_mode::<M, T, L>, (&session,), compact),
        call_ensures(get_transcription_status::<M, T, L>, (&session,), status),
    ensures
        active == session.is_recording,
        recording == active && status.is_processing == active,
        compact ==> recording && !session.is_stopping,
        recording && !compact ==> session.is_stopping,
        status.chunks_in_queue == 0 && status.last_activity_ms == 0,
{
}

/// What the manager says is answered as it is, and without a manager there is nothing to
/// answer.
pub proof fn the_manager_answers<S>(
    paused: bool,
    folder: Option<String>,
    name: Option<String>,
    segments: Vec<S>,
    is_paused: bool,
    never_paused: bool,
    of_folder: Result<Option<String>, String>,
    no_folder: Result<Option<String>, String>,
    of_name: Result<Option<String>, String>,
    no_name: Result<Option<String>, String>,
    history: Result<Vec<S>, String>,
    no_history: Result<Vec<S>, String>,
)
    requires
        call_ensures(is_recording_paused, (Some(paused),), is_paused),
        call_ensures(is_recording_paused, (None,), never_paused),
        call_ensures(get_meeting_folder_path, (Some(folder),), of_folder),
        call_ensures(get_meeting_folder_path, (None,), no_folder),
        call_ensures(get_recording_meeting_name, (Some(name),), of_name),
        call_ensures(get_recording_meeting_name, (None,), no_name),
        call_ensures(get_transcript_history::<S>, (Some(segments),), history),
        call_ensures(get_transcript_history::<S>, (None,), no_history),
    ensures
        is_paused == paused && !never_paused,
        of_folder == Ok::<Option<String>, String>(folder),
        no_folder == Ok::<Option<String>, String>(None),
        of_name == Ok::<Option<String>, String>(name),
        no_name == Ok::<Option<String>, String>(None),
        history == Ok::<Vec<S>, String>(segments),
        no_history is Ok && no_history->Ok_0@.len() == 0,
{
}

/// What is known of the output is passed on, and what keeps it from being known is told.
pub proof fn the_output_is_passed_on<I>(
    info: I,
    why: String,
    known: Result<I, String>,
    unknown: Result<I, String>,
)
    requires
        call_ensures(get_active_audio_output::<I>, (Ok(info),), known),
        call_ensures(get_active_audio_output::<I>, (Err(why),), unknown),
    ensures
        known == Ok::<I, String>(info),
        unknown is Err && why@.is_suffix_of(unknown->Err_0@),
{
    let text = unknown->Err_0@;
    assert(text.subrange(text.len() - why@.len(), text.len() as int) =~= why@);
}

/// The same answer to two polls tells of the same event, and no answer tells of no event.
pub proof fn polled_events_are_told_apart(
    one: DeviceEvent,
    other: DeviceEvent,
    told: Result<Option<DeviceEventResponse>, String>,
    also: Result<Option<DeviceEventResponse>, String>,
    nothing: Result<Option<DeviceEventResponse>, String>,
)
    requires
        call_ensures(poll_audio_device_events, (Some(Some(one)),), told),
        call_ensures(poll_audio_device_events, (Some(Some(other)),), also),
        call_ensures(poll_audio_device_events, (Some(None),), nothing),
    ensures
        told is Ok && told->Ok_0 is Some,
        told == also ==> one == other,
        nothing is Ok && nothing->Ok_0 is None,
{
    if told == also {
        responses_tell_events_apart(told->Ok_0->0, one, other);
    }
}

/// A segment is kept with the manager exactly as long as there is one.
pub proof fn a_segment_is_kept_with_the_manager(with: SegmentKeeper, without: SegmentKeeper)
    requires
        call_ensures(keeper_of_segment, (true,), with),
        call_ensures(keeper_of_segment, (false,), without),
    ensures
        with is Manager && without is Transcript,
{
}

// ---------------------------------------------------------------------------
// Starting and stopping
// ---------------------------------------------------------------------------

/// What is told of a recording that started is what the caller asked for: a name that the
/// caller gave for the microphone as that of the microphone, and one for system audio as
/// that of system audio.
pub proof fn a_start_is_told_with_its_names(startup: Startup, notice: StartNotice)
    requires
        call_ensures(Startup::start_notice, (&startup,), notice),
    ensures
        startup.by_request && startup.microphone_name is Some ==> notice.microphone@
            == startup.microphone_name->0@,
        startup.by_request && startup.system_name is Some ==> notice.system_audio@
            == startup.system_name->0@,
        !startup.by_request || startup.microphone_name is None ==> notice.microphone@
            == "Default Microphone"@,
        !startup.by_request || startup.system_name is None ==> notice.system_audio@
            == "Default System Audio"@,
        notice.workers == 3,
{
}

/// A notice on the model is given exactly where the model is what failed, with its reason.
pub proof fn a_missing_model_is_told(startup: Startup, notice: Option<ModelNotice>)
    requires
        call_ensures(Startup::model_notice, (&startup,), notice),
    ensures
        notice is Some <==> startup.failure is Some && startup.failure->0 is Model,
        startup.failure matches Some(StartFailure::Model(why)) ==> notice->0.error == why
            && !notice->0.actionable,
{
}

/// The seconds that are told while the queue is transcribed are those that it took, and
/// they go out as progress does.
pub proof fn waiting_is_progress(
    elapsed: u64,
    told: WaitingProgress,
    event: Option<StopEvent>,
    progress: Option<StopEvent>,
)
    requires
        call_ensures(waiting_progress, (elapsed,), told),
        call_ensures(StopStage::event, (&StopStage::AwaitTask,), event),
        call_ensures(StopStage::event, (&StopStage::TellTranscribing,), progress),
    ensures
        told.elapsed_seconds == elapsed,
        told.message@ == crate::stop::waiting_text(elapsed),
        event is Some && progress is Some,
        event->0.name@ == progress->0.name@,
        event->0.window is None && progress->0.window is None,
{
}

/// What the windows are told at the end is what came of saving: the folder and the name
/// together or neither, and why the recording is incomplete, if it is.
pub proof fn the_end_is_told_with_what_came_of_it<M, T, L>(
    shutdown: Shutdown<M, T, L>,
    notice: StopNotice,
    error: Option<String>,
)
    requires
        call_ensures(Shutdown::<M, T, L>::notice, (&shutdown,), notice),
        call_ensures(Shutdown::<M, T, L>::audio_save_error, (&shutdown,), error),
    ensures
        notice.folder_path is Some <==> notice.meeting_name is Some,
        notice.folder_path is Some <==> shutdown.folder is Some && shutdown.name is Some,
        notice.folder_path is Some ==> notice.folder_path == shutdown.folder && notice.meeting_name
            == shutdown.name,
        optional(notice.audio_save_error) == optional(error),
        error is None <==> shutdown.stream_error is None && shutdown.save is Saved,
        notice.call_api,
{
}

/// Streams are counted one by one.
pub proof fn streams_are_counted<C, T, F>(
    manager: AudioStreamManager<C, T, F>,
    count: usize,
    any: bool,
)
    requires
        call_ensures(AudioStreamManager::<C, T, F>::active_stream_count, (&manager,), count),
        call_ensures(AudioStreamManager::<C, T, F>::has_active_streams, (&manager,), any),
    ensures
        any <==> count > 0,
        count == 2 <==> manager.microphone_stream is Some && manager.system_stream is Some,
        count == 0 <==> manager.microphone_stream is None && manager.system_stream is None,
        count <= 2,
{
}

// ---------------------------------------------------------------------------
// Permission
// ---------------------------------------------------------------------------

/// Asking for the permission, from what came of every step: it is denied where there is no
/// default input device or none that tells its configuration, it is an error where a
/// stream cannot be built or played, and it is granted where everything works.
pub proof fn permission_is_told_by_what_fails(
    outcomes: Seq<Result<(), String>>,
    replies: Seq<PermissionReply>,
    stages: Seq<PermissionStage>,
    result: Option<Result<bool, String>>,
)
    requires
        outcomes.len() == 4,
        replies.len() == 4,
        stages.len() == 6,
        call_ensures(trigger_audio_permission, (), stages[0]),
        forall|i: int|
            #![trigger replies[i]]
            0 <= i < 4 ==> call_ensures(reply_at, (&stages[i], outcomes[i]), replies[i])
                && call_ensures(PermissionStage::step, (stages[i], replies[i]), stages[i + 1]),
        call_ensures(PermissionStage::step, (stages[4], PermissionReply::Worked), stages[5]),
        call_ensures(PermissionStage::result, (&stages[5],), result),
    ensures
        result == Some(
            if outcomes[0] is Err || outcomes[1] is Err {
                Ok::<bool, String>(false)
            } else if outcomes[2] is Err {
                Err(outcomes[2]->Err_0)
            } else if outcomes[3] is Err {
                Err(outcomes[3]->Err_0)
            } else {
                Ok(true)
            },
        ),
{
    assert(stages[0] is FindDevice);
    assert(replies[0] == reply_to(stages[0], outcomes[0]));
    assert(stages[1] == permission_stage(stages[0], replies[0]));
    assert(replies[1] == reply_to(stages[1], outcomes[1]));
    assert(stages[2] == permission_stage(stages[1], replies[1]));
    assert(replies[2] == reply_to(stages[2], outcomes[2]));
    assert(stages[3] == permission_stage(stages[2], replies[2]));
    assert(replies[3] == reply_to(stages[3], outcomes[3]));
    assert(stages[4] == permission_stage(stages[3], replies[3]));
}

// ---------------------------------------------------------------------------
// Capturing
// ---------------------------------------------------------------------------

/// Every byte of a chunk stands in its place in the samples, up to the last whole sample.
pub proof fn no_byte_is_moved(chunk: &[u8], samples: Vec<[u8; 4]>, i: int)
    requires
        call_ensures(sample_bytes, (chunk,), samples),
        0 <= i < 4 * samples@.len(),
    ensures
        chunk@.len() - 4 < 4 * samples@.len() <= chunk@.len(),
        samples@[i / 4]@[i % 4] == chunk@[i],
{
    let at = i / 4;
    assert(samples@[at]@ == chunk@.subrange(4 * at, 4 * at + 4));
    assert(samples@[at]@[i % 4] == chunk@.subrange(4 * at, 4 * at + 4)[i % 4]);
}

/// A read takes as many bytes as the server delivers at a time, in as many channels as
/// the stream has; the server holds half a second.
pub proof fn a_read_takes_what_is_delivered<S, F>(
    target: CaptureTarget,
    capture: PulseCapture<S, F>,
    format: CaptureFormat,
    read_loop: CaptureLoop,
    channels: u16,
)
    requires
        call_ensures(CaptureTarget::format, (&target,), format),
        call_ensures(PulseCapture::<S, F>::run, (&capture,), read_loop),
        call_ensures(PulseCapture::<S, F>::channels, (&capture,), channels),
        channels == target.channel_count(),
    ensures
        read_loop.read_bytes == format.fragsize,
        format.channels == channels,
        format.rate == 48000,
        format.maxlength == format.rate * channels * 2,
        read_loop.stage is BeforeRead,
{
    assert(channels == 1 || channels == 2);
}

/// A tap that failed is not reported a second time, and neither is one that ended without
/// a recording.
pub proof fn a_failure_is_reported_once<S>(
    reader: TapReader<S>,
    during: Option<AudioError>,
    otherwise: Option<AudioError>,
)
    requires
        call_ensures(TapReader::<S>::unexpected_end, (&reader, true), during),
        call_ensures(TapReader::<S>::unexpected_end, (&reader, false), otherwise),
    ensures
        otherwise is None,
        during is Some <==> !reader@.failed,
        during is Some ==> during->0 == AudioError::ChannelClosed,
{
}

/// A main loop that had something to do is looked at again at once, one that had nothing
/// to do after a sleep, and one that quit or failed never again.
pub proof fn an_idle_loop_sleeps(
    iteration: Iteration,
    waiting: Waiting,
    events: Result<u32, WaitError>,
    next: AfterPump,
)
    requires
        call_ensures(pump, (iteration, waiting), events),
        call_ensures(after_pump, (iteration, waiting), next),
    ensures
        next is Sleep <==> events == Ok::<u32, WaitError>(0),
        next is LookAgain <==> events is Ok && events->Ok_0 > 0,
        next is GiveUp <==> events is Err,
        events is Err ==> next == AfterPump::GiveUp(events->Err_0) && events->Err_0
            == WaitError::LoopFailed(waiting),
        iteration matches Iteration::Dispatched(n) ==> events == Ok::<u32, WaitError>(n),
        !(iteration is Dispatched) ==> events is Err,
{
}

// ---------------------------------------------------------------------------
// Names
// ---------------------------------------------------------------------------

/// Case makes no difference to the class of a device, nor to whether an endpoint is worth
/// showing.
pub proof fn case_makes_no_difference(
    one: &str,
    other: &str,
    class: &'static str,
    also: &'static str,
    useful: bool,
    useful_too: bool,
)
    requires
        is_ascii_chars(one@),
        is_ascii_chars(other@),
        ascii_lowercase(one@) == ascii_lowercase(other@),
        call_ensures(classify_device_type, (one,), class),
        call_ensures(classify_device_type, (other,), also),
        call_ensures(is_useful_alsa_endpoint, (one,), useful),
        call_ensures(is_useful_alsa_endpoint, (other,), useful_too),
    ensures
        class@ == also@,
        useful == useful_too,
        useful <==> ascii_lowercase(one@) == "default"@ || ascii_lowercase(one@) == "pipewire"@
            || ascii_lowercase(one@) == "pulse"@,
{
}

/// The default output of the server has the label that is found among what is listed.
pub proof fn the_default_label_is_found_in_the_list(
    name: &str,
    reports: Vec<SinkInfo>,
    sinks: Vec<PulseSink>,
    slice: &[PulseSink],
    by_server: Option<String>,
    by_list: Option<String>,
)
    requires
        call_ensures(list_sinks, (&reports,), sinks),
        slice@ == sinks@,
        call_ensures(default_sink_label, (Some(name), &reports), by_server),
        call_ensures(label_for_sink_name, (slice, name), by_list),
    ensures
        optional(by_server) == optional(by_list),
{
}

/// There is a label for every entry; it is the description alone where no other entry
/// has it, and the description with the name in brackets where another one has.
pub proof fn every_entry_has_its_label(entries: &[(String, String)], built: Vec<String>, i: int)
    requires
        call_ensures(build_labels, (entries,), built),
        0 <= i < entries@.len(),
    ensures
        built@.len() == entries@.len(),
        (forall|j: int|
            0 <= j < entries@.len() && j != i ==> #[trigger] entries@[j].0@ != entries@[i].0@)
            ==> built@[i]@ == entries@[i].0@,
        (exists|j: int|
            0 <= j < entries@.len() && j != i && #[trigger] entries@[j].0@ == entries@[i].0@)
            ==> built@[i]@ == entries@[i].0@ + " ["@ + entries@[i].1@ + "]"@,
{
    crate::row_laws::labels_add_the_name_where_it_is_needed(entries@, i);
    assert(crate::text::texts(built@).len() == built@.len());
    assert(crate::text::texts(built@)[i] == built@[i]@);
}

/// A name is read as a device only where it ends, in lower case, with the marker of that
/// type of device. It is refused as empty exactly where it is blank, and for want of a
/// type only where it ends with no marker.
pub proof fn a_name_in_lower_case_is_read_by_its_end(
    name: &str,
    lower: &str,
    result: Result<AudioDevice, DeviceNameError>,
)
    requires
        call_ensures(AudioDevice::from_lowered, (name, lower), result),
    ensures
        result is Ok ==> result->Ok_0.device_type.marker().is_suffix_of(lower@),
        result == Err::<AudioDevice, _>(DeviceNameError::Empty) <==> crate::text_laws::is_blank(
            name@,
            0,
            name@.len() as int,
        ),
        result == Err::<AudioDevice, _>(DeviceNameError::MissingType) ==> !"(input)"@.is_suffix_of(
            lower@,
        ) && !"(output)"@.is_suffix_of(lower@),
{
    let ends = crate::text_laws::trimming_takes_off_white_space_only(name@);
}

/// The marker of a name counts in any case: a name that is not blank is read as an input
/// exactly where it ends with "(input)" in whatever case, and as an output exactly where it
/// ends with "(output)".
pub proof fn a_marker_counts_in_any_case(
    name: &str,
    result: Result<AudioDevice, DeviceNameError>,
)
    requires
        is_ascii_chars(name@),
        call_ensures(parse_audio_device, (name,), result),
    ensures
        result is Ok && result->Ok_0.device_type is Input <==> "(input)"@.is_suffix_of(
            ascii_lowercase(name@),
        ),
        result is Ok && result->Ok_0.device_type is Output <==> "(output)"@.is_suffix_of(
            ascii_lowercase(name@),
        ),
{
    reveal_strlit("(input)");
    reveal_strlit("(output)");
    let lower = ascii_lowercase(name@);
    let end = lower.len() as int;
    let ends = crate::text_laws::trimming_takes_off_white_space_only(name@);
    assert(modelled(result) == read_as(name@, lower));
    if "(input)"@.is_suffix_of(lower) || "(output)"@.is_suffix_of(lower) {
        assert(lower[end - 1] == ')') by {
            if "(input)"@.is_suffix_of(lower) {
                assert(lower.subrange(end - 7, end)[6] == ')');
            } else {
                assert(lower.subrange(end - 8, end)[7] == ')');
            }
        }
        crate::text_laws::lower_case_changes_capitals_only(name@, end - 1);
        assert(name@[end - 1] == ')');
        assert(!crate::text_laws::is_blank(name@, 0, end));
    }
    if "(input)"@.is_suffix_of(lower) && "(output)"@.is_suffix_of(lower) {
        assert(lower.subrange(end - 7, end)[0] == '(');
        assert(lower.subrange(end - 8, end)[1] == 'o');
    }
}

/// A time is made exactly of the fields that are given for it, where the calendar has it.
pub proof fn a_time_is_made_of_its_fields(
    year: i32,
    month: u32,
    day: u32,
    hour: u32,
    minute: u32,
    second: u32,
    time: Option<LocalTime>,
    text: String,
)
    requires
        call_ensures(LocalTime::new, (year, month, day, hour, minute, second), time),
        time is Some ==> call_ensures(LocalTime::timestamp, (&time->0,), text),
    ensures
        time is Some <==> crate::clock::date_exists(year as int, month as int, day as int) && hour
            < 24 && minute < 60 && second < 60,
        time is Some ==> text@ == (CivilTime {
            year: year as int,
            month: month as int,
            day: day as int,
            hour: hour as int,
            minute: minute as int,
            second: second as int,
        }).timestamp(),
{
}

} // verus!
