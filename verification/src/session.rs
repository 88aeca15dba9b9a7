//! The one recording that can be under way, and the commands that ask about it or
//! change it while it runs.

use crate::device::AudioDevice;
use crate::text::{joined, same_text};
use vstd::prelude::*;

verus! {

// ---------------------------------------------------------------------------
// The session
// ---------------------------------------------------------------------------

/// The recording that is under way, with its manager `M`, the task `T` that
/// transcribes, and the listener `L` that keeps the transcript.
#[derive(Debug)]
pub struct RecordingSession<M, T, L> {
    pub is_recording: bool,
    pub is_stopping: bool,
    pub manager: Option<M>,
    pub transcription_task: Option<T>,
    pub transcript_listener: Option<L>,
}

impl<M, T, L> RecordingSession<M, T, L> {
    /// No recording.
    pub fn new() -> (session: Self)
        ensures
            !session.is_recording,
            !session.is_stopping,
            session.manager is None,
            session.transcription_task is None,
            session.transcript_listener is None,
    {
        RecordingSession {
            is_recording: false,
            is_stopping: false,
            manager: None,
            transcription_task: None,
            transcript_listener: None,
        }
    }
}

/// Whether a recording is under way.
pub fn is_recording_active<M, T, L>(session: &RecordingSession<M, T, L>) -> (active: bool)
    ensures
        active == session.is_recording,
{
    session.is_recording
}

/// Whether a recording is under way.
pub fn is_recording<M, T, L>(session: &RecordingSession<M, T, L>) -> (active: bool)
    ensures
        active == session.is_recording,
{
    session.is_recording
}

/// Whether the window may shrink to its compact form: only while recording, and
/// not once the recording is being stopped.
pub fn compact_mode_allowed(is_recording: bool, is_stopping: bool) -> (allowed: bool)
    ensures
        allowed == (is_recording && !is_stopping),
{
    is_recording && !is_stopping
}

/// Whether the window may shrink to its compact form now.
pub fn can_enter_compact_mode<M, T, L>(session: &RecordingSession<M, T, L>) -> (allowed: bool)
    ensures
        allowed == (session.is_recording && !session.is_stopping),
{
    compact_mode_allowed(session.is_recording, session.is_stopping)
}

/// What a stop is asked to do.
#[derive(Debug, PartialEq, Eq)]
pub struct RecordingArgs {
    pub save_path: String,
}

/// What transcription is doing.
#[derive(Clone, Copy, Debug, PartialEq, Eq, Structural)]
pub struct TranscriptionStatus {
    pub chunks_in_queue: usize,
    pub is_processing: bool,
    pub last_activity_ms: u64,
}

/// What transcription is doing: it runs while a recording does.
pub fn get_transcription_status<M, T, L>(session: &RecordingSession<M, T, L>) -> (status:
    TranscriptionStatus)
    ensures
        status == (TranscriptionStatus {
            chunks_in_queue: 0,
            is_processing: session.is_recording,
            last_activity_ms: 0,
        }),
{
    TranscriptionStatus {
        chunks_in_queue: 0,
        is_processing: session.is_recording,
        last_activity_ms: 0,
    }
}

// ---------------------------------------------------------------------------
// Commands on a running recording
// ---------------------------------------------------------------------------

/// Why a command on a running recording failed.
#[derive(Debug, PartialEq, Eq)]
pub enum CommandError {
    /// No recording is under way.
    NotRecording,
    /// A recording is under way, but its manager is not there.
    NoManager,
    /// The manager refused.
    Manager(String),
    /// The event could not be sent.
    Event(String),
}

impl CommandError {
    /// The message for an error.
    pub open spec fn text(self) -> Seq<char> {
        match self {
            CommandError::NotRecording => "No recording is currently active"@,
            CommandError::NoManager => "No recording manager found"@,
            CommandError::Manager(why) => why@,
            CommandError::Event(why) => why@,
        }
    }

    /// The message for the error.
    pub fn message(&self) -> (text: String)
        ensures
            text@ == self.text(),
    {
        match self {
            CommandError::NotRecording => "No recording is currently active".to_owned(),
            CommandError::NoManager => "No recording manager found".to_owned(),
            CommandError::Manager(why) => why.clone(),
            CommandError::Event(why) => why.clone(),
        }
    }
}

/// The session takes no command, and why.
pub open spec fn refusal<M, T, L>(session: RecordingSession<M, T, L>) -> Option<CommandError> {
    if !session.is_recording {
        Some(CommandError::NotRecording)
    } else if session.manager is None {
        Some(CommandError::NoManager)
    } else {
        None
    }
}

fn refused<M, T, L>(session: &RecordingSession<M, T, L>) -> (error: Option<CommandError>)
    ensures
        error == refusal(*session),
{
    if !session.is_recording {
        Some(CommandError::NotRecording)
    } else if session.manager.is_none() {
        Some(CommandError::NoManager)
    } else {
        None
    }
}

/// Pausing or resuming.
#[derive(Clone, Copy, Debug, PartialEq, Eq, Structural)]
pub enum Control {
    Pause,
    Resume,
}

impl Control {
    /// The event that tells of it.
    pub open spec fn event_name(self) -> Seq<char> {
        match self {
            Control::Pause => "recording-paused"@,
            Control::Resume => "recording-resumed"@,
        }
    }

    /// What the event says.
    pub open spec fn event_text(self) -> Seq<char> {
        match self {
            Control::Pause => "Recording paused"@,
            Control::Resume => "Recording resumed"@,
        }
    }

    /// The event that tells of it, and what the event says.
    pub fn event(&self) -> (event: (&'static str, &'static str))
        ensures
            event.0@ == self.event_name(),
            event.1@ == self.event_text(),
    {
        match self {
            Control::Pause => ("recording-paused", "Recording paused"),
            Control::Resume => ("recording-resumed", "Recording resumed"),
        }
    }
}

/// How far a pause or resume is, and with that what to do next.
#[derive(Debug, PartialEq, Eq)]
pub enum ControlStage {
    /// Have the manager do it.
    Apply(Control),
    /// Send the event.
    Announce(Control),
    /// Bring the tray menu up to date.
    UpdateTray,
    /// Done.
    Done,
    /// It failed.
    Failed(CommandError),
}

/// Begin to pause the recording.
pub fn pause_recording<M, T, L>(session: &RecordingSession<M, T, L>) -> (stage: ControlStage)
    ensures
        stage == match refusal(*session) {
            Some(error) => ControlStage::Failed(error),
            None => ControlStage::Apply(Control::Pause),
        },
{
    match refused(session) {
        Some(error) => ControlStage::Failed(error),
        None => ControlStage::Apply(Control::Pause),
    }
}

/// Begin to resume the recording.
pub fn resume_recording<M, T, L>(session: &RecordingSession<M, T, L>) -> (stage: ControlStage)
    ensures
        stage == match refusal(*session) {
            Some(error) => ControlStage::Failed(error),
            None => ControlStage::Apply(Control::Resume),
        },
{
    match refused(session) {
        Some(error) => ControlStage::Failed(error),
        None => ControlStage::Apply(Control::Resume),
    }
}

impl ControlStage {
    /// The stage that follows a stage on its result.
    pub open spec fn after(self, result: Result<(), String>) -> ControlStage {
        match (self, result) {
            (ControlStage::Apply(control), Ok(())) => ControlStage::Announce(control),
            (ControlStage::Apply(_), Err(why)) => ControlStage::Failed(CommandError::Manager(why)),
            (ControlStage::Announce(_), Ok(())) => ControlStage::UpdateTray,
            (ControlStage::Announce(_), Err(why)) => ControlStage::Failed(CommandError::Event(why)),
            (ControlStage::UpdateTray, _) => ControlStage::Done,
            (stage, _) => stage,
        }
    }

    /// Take in the result of doing what the stage says. (Updating the tray menu
    /// does not fail.)
    pub fn step(self, result: Result<(), String>) -> (next: ControlStage)
        ensures
            next == self.after(result),
    {
        match (self, result) {
            (ControlStage::Apply(control), Ok(())) => ControlStage::Announce(control),
            (ControlStage::Apply(_), Err(why)) => ControlStage::Failed(CommandError::Manager(why)),
            (ControlStage::Announce(_), Ok(())) => ControlStage::UpdateTray,
            (ControlStage::Announce(_), Err(why)) => ControlStage::Failed(CommandError::Event(why)),
            (ControlStage::UpdateTray, _) => ControlStage::Done,
            (stage, _) => stage,
        }
    }
}

/// A pause or resume succeeds exactly where a recording with a manager is under
/// way, the manager goes along and the event is sent.
pub proof fn control_succeeds_exactly_when_all_steps_do<M, T, L>(
    session: RecordingSession<M, T, L>,
    control: Control,
    manager: Result<(), String>,
    event: Result<(), String>,
)
    ensures
        ({
            let begun = match refusal(session) {
                Some(error) => ControlStage::Failed(error),
                None => ControlStage::Apply(control),
            };
            begun.after(manager).after(event).after(Ok(())) is Done <==> session.is_recording
                && session.manager is Some && manager is Ok && event is Ok
        }),
{
}

/// A source of sound that can be muted by itself.
#[derive(Clone, Copy, Debug, PartialEq, Eq, Structural)]
pub enum MutedSource {
    Microphone,
    SystemAudio,
}

/// A source to mute or unmute.
#[derive(Clone, Copy, Debug, PartialEq, Eq, Structural)]
pub struct MuteChange {
    pub source: MutedSource,
    pub muted: bool,
}

impl MuteChange {
    /// The event that tells of the change.
    pub open spec fn event_name(self) -> Seq<char> {
        match self.source {
            MutedSource::Microphone => "microphone-mute-changed"@,
            MutedSource::SystemAudio => "system-audio-mute-changed"@,
        }
    }

    /// The event that tells of the change.
    pub fn event(&self) -> (name: &'static str)
        ensures
            name@ == self.event_name(),
    {
        match self.source {
            MutedSource::Microphone => "microphone-mute-changed",
            MutedSource::SystemAudio => "system-audio-mute-changed",
        }
    }
}

/// Mute or unmute only the microphone; system audio goes on.
pub fn set_microphone_muted<M, T, L>(session: &RecordingSession<M, T, L>, muted: bool) -> (result:
    Result<MuteChange, CommandError>)
    ensures
        result == match refusal(*session) {
            Some(error) => Err(error),
            None => Ok(MuteChange { source: MutedSource::Microphone, muted }),
        },
{
    match refused(session) {
        Some(error) => Err(error),
        None => Ok(MuteChange { source: MutedSource::Microphone, muted }),
    }
}

/// Mute or unmute only system audio; the microphone goes on.
pub fn set_system_audio_muted<M, T, L>(session: &RecordingSession<M, T, L>, muted: bool) -> (result:
    Result<MuteChange, CommandError>)
    ensures
        result == match refusal(*session) {
            Some(error) => Err(error),
            None => Ok(MuteChange { source: MutedSource::SystemAudio, muted }),
        },
{
    match refused(session) {
        Some(error) => Err(error),
        None => Ok(MuteChange { source: MutedSource::SystemAudio, muted }),
    }
}

// ---------------------------------------------------------------------------
// Queries
// ---------------------------------------------------------------------------

/// What a manager says of its recording, with durations of type `D`.
#[derive(Clone, Copy, Debug, PartialEq)]
pub struct ManagerStatus<D> {
    pub is_paused: bool,
    pub is_microphone_muted: bool,
    pub is_system_audio_muted: bool,
    pub is_active: bool,
    pub recording_duration: Option<D>,
    pub active_duration: Option<D>,
    pub total_pause_duration: D,
    pub current_pause_duration: Option<D>,
}

/// What is known of the recording.
#[derive(Clone, Copy, Debug, PartialEq)]
pub struct RecordingState<D> {
    pub is_recording: bool,
    pub status: ManagerStatus<D>,
}

/// What a session without a manager is said to be doing: nothing.
pub open spec fn idle_status<D>(zero: D) -> ManagerStatus<D> {
    ManagerStatus {
        is_paused: false,
        is_microphone_muted: false,
        is_system_audio_muted: false,
        is_active: false,
        recording_duration: None,
        active_duration: None,
        total_pause_duration: zero,
        current_pause_duration: None,
    }
}

/// What is known of the recording, from what its manager says (`None` where there
/// is no manager). `zero` is the duration of nothing.
pub fn get_recording_state<D>(is_recording: bool, manager: Option<ManagerStatus<D>>, zero: D) -> (
state: RecordingState<D>)
    ensures
        state.is_recording == is_recording,
        state.status == match manager {
            Some(status) => status,
            None => idle_status(zero),
        },
{
    let status = match manager {
        Some(status) => status,
        None => ManagerStatus {
            is_paused: false,
            is_microphone_muted: false,
            is_system_audio_muted: false,
            is_active: false,
            recording_duration: None,
            active_duration: None,
            total_pause_duration: zero,
            current_pause_duration: None,
        },
    };
    RecordingState { is_recording, status }
}

/// Whether the recording is paused, from what its manager says.
pub fn is_recording_paused(manager: Option<bool>) -> (paused: bool)
    ensures
        paused == (manager == Some(true)),
{
    match manager {
        Some(paused) => paused,
        None => false,
    }
}

/// The folder of the meeting, from what the manager says. Without a manager there
/// is none.
pub fn get_meeting_folder_path(manager: Option<Option<String>>) -> (folder: Result<
    Option<String>,
    String,
>)
    ensures
        folder == Ok::<Option<String>, String>(
            match manager {
                Some(folder) => folder,
                None => None,
            },
        ),
{
    Ok(
        match manager {
            Some(folder) => folder,
            None => None,
        },
    )
}

/// The segments transcribed so far, from what the manager says. Without a manager
/// there are none.
pub fn get_transcript_history<S>(manager: Option<Vec<S>>) -> (history: Result<Vec<S>, String>)
    ensures
        history is Ok,
        match manager {
            Some(segments) => history->Ok_0 == segments,
            None => history->Ok_0@ == Seq::<S>::empty(),
        },
{
    match manager {
        Some(segments) => Ok(segments),
        None => Ok(Vec::new()),
    }
}

/// The name of the meeting, from what the manager says. Without a manager there is
/// none.
pub fn get_recording_meeting_name(manager: Option<Option<String>>) -> (name: Result<
    Option<String>,
    String,
>)
    ensures
        name == Ok::<Option<String>, String>(
            match manager {
                Some(name) => name,
                None => None,
            },
        ),
{
    Ok(
        match manager {
            Some(name) => name,
            None => None,
        },
    )
}

/// What is known of the active output device, or why nothing is.
pub fn get_active_audio_output<I>(monitor: Result<I, String>) -> (result: Result<I, String>)
    ensures
        match monitor {
            Ok(info) => result == Ok::<I, String>(info),
            Err(why) => result is Err && result->Err_0@ == "Failed to get audio output info: "@
                + why@,
        },
{
    match monitor {
        Ok(info) => Ok(info),
        Err(why) => Err(joined("Failed to get audio output info: ", why.as_str())),
    }
}

// ---------------------------------------------------------------------------
// Devices that come and go
// ---------------------------------------------------------------------------

/// What a monitored device is used for.
#[derive(Clone, Copy, Debug, PartialEq, Eq, Structural)]
pub enum DeviceMonitorType {
    Microphone,
    SystemAudio,
}

impl DeviceMonitorType {
    /// The name of the type.
    pub open spec fn shown(self) -> Seq<char> {
        match self {
            DeviceMonitorType::Microphone => "Microphone"@,
            DeviceMonitorType::SystemAudio => "SystemAudio"@,
        }
    }

    /// The type of the given name.
    pub open spec fn of_name(name: Seq<char>) -> Option<DeviceMonitorType> {
        if name == "Microphone"@ {
            Some(DeviceMonitorType::Microphone)
        } else if name == "SystemAudio"@ {
            Some(DeviceMonitorType::SystemAudio)
        } else {
            None
        }
    }

    /// The name of the type.
    pub fn name(&self) -> (text: &'static str)
        ensures
            text@ == self.shown(),
    {
        match self {
            DeviceMonitorType::Microphone => "Microphone",
            DeviceMonitorType::SystemAudio => "SystemAudio",
        }
    }

    /// The type of the given name.
    pub fn from_name(name: &str) -> (monitor_type: Option<DeviceMonitorType>)
        ensures
            monitor_type == Self::of_name(name@),
    {
        if same_text(name, "Microphone") {
            Some(DeviceMonitorType::Microphone)
        } else if same_text(name, "SystemAudio") {
            Some(DeviceMonitorType::SystemAudio)
        } else {
            None
        }
    }
}

/// The name of a monitor type stands for that type.
pub proof fn monitor_type_names_are_read_back(monitor_type: DeviceMonitorType)
    ensures
        DeviceMonitorType::of_name(monitor_type.shown()) == Some(monitor_type),
{
    reveal_strlit("Microphone");
    reveal_strlit("SystemAudio");
    assert("Microphone"@[0] == 'M');
    assert("SystemAudio"@[0] == 'S');
}

/// A device that came or went.
#[derive(Debug, PartialEq, Eq)]
pub enum DeviceEvent {
    DeviceDisconnected { device_name: String, device_type: DeviceMonitorType },
    DeviceReconnected { device_name: String, device_type: DeviceMonitorType },
    DeviceListChanged,
}

/// A device that came or went, as it is told to the front end.
#[derive(Debug, PartialEq, Eq)]
pub enum DeviceEventResponse {
    DeviceDisconnected { device_name: String, device_type: String },
    DeviceReconnected { device_name: String, device_type: String },
    DeviceListChanged,
}

impl DeviceEventResponse {
    /// The response tells of the event, with the device type by its name.
    pub open spec fn tells_of(self, event: DeviceEvent) -> bool {
        match event {
            DeviceEvent::DeviceDisconnected { device_name, device_type } => {
                &&& self is DeviceDisconnected
                &&& self->DeviceDisconnected_device_name == device_name
                &&& self->DeviceDisconnected_device_type@ == device_type.shown()
            },
            DeviceEvent::DeviceReconnected { device_name, device_type } => {
                &&& self is DeviceReconnected
                &&& self->DeviceReconnected_device_name == device_name
                &&& self->DeviceReconnected_device_type@ == device_type.shown()
            },
            DeviceEvent::DeviceListChanged => self is DeviceListChanged,
        }
    }

    /// The response that tells of an event.
    pub fn from(event: DeviceEvent) -> (response: Self)
        ensures
            response.tells_of(event),
    {
        match event {
            DeviceEvent::DeviceDisconnected { device_name, device_type } => {
                DeviceEventResponse::DeviceDisconnected {
                    device_name,
                    device_type: device_type.name().to_owned(),
                }
            },
            DeviceEvent::DeviceReconnected { device_name, device_type } => {
                DeviceEventResponse::DeviceReconnected {
                    device_name,
                    device_type: device_type.name().to_owned(),
                }
            },
            DeviceEvent::DeviceListChanged => DeviceEventResponse::DeviceListChanged,
        }
    }
}

/// The next device event, from what the manager polled (`None` where there is no
/// manager).
pub fn poll_audio_device_events(manager: Option<Option<DeviceEvent>>) -> (result: Result<
    Option<DeviceEventResponse>,
    String,
>)
    ensures
        result is Ok,
        match manager {
            Some(Some(event)) => result->Ok_0 is Some && result->Ok_0->0.tells_of(event),
            _ => result->Ok_0 is None,
        },
{
    match manager {
        Some(Some(event)) => Ok(Some(DeviceEventResponse::from(event))),
        _ => Ok(None),
    }
}

/// A device that is disconnected.
#[derive(Debug, PartialEq, Eq)]
pub struct DisconnectedDeviceInfo {
    pub name: String,
    pub device_type: String,
}

/// Whether a device is being reconnected, and which one is gone.
#[derive(Debug, PartialEq, Eq)]
pub struct ReconnectionStatus {
    pub is_reconnecting: bool,
    pub disconnected_device: Option<DisconnectedDeviceInfo>,
}

/// What a manager says of reconnecting.
#[derive(Debug)]
pub struct Reconnection {
    pub is_reconnecting: bool,
    pub disconnected: Option<(AudioDevice, DeviceMonitorType)>,
}

/// Whether a device is being reconnected, from what the manager says (`None` where
/// there is no manager).
pub fn get_reconnection_status(manager: Option<Reconnection>) -> (result: Result<
    ReconnectionStatus,
    String,
>)
    ensures
        result is Ok,
        match manager {
            Some(told) => {
                &&& result->Ok_0.is_reconnecting == told.is_reconnecting
                &&& match told.disconnected {
                    Some(gone) => {
                        &&& result->Ok_0.disconnected_device is Some
                        &&& result->Ok_0.disconnected_device->0.name == gone.0.name
                        &&& result->Ok_0.disconnected_device->0.device_type@ == gone.1.shown()
                    },
                    None => result->Ok_0.disconnected_device is None,
                }
            },
            None => !result->Ok_0.is_reconnecting && result->Ok_0.disconnected_device is None,
        },
{
    match manager {
        Some(told) => {
            let disconnected_device = match told.disconnected {
                Some((device, device_type)) => Some(
                    DisconnectedDeviceInfo {
                        name: device.name,
                        device_type: device_type.name().to_owned(),
                    },
                ),
                None => None,
            };
            Ok(ReconnectionStatus { is_reconnecting: told.is_reconnecting, disconnected_device })
        },
        None => Ok(ReconnectionStatus { is_reconnecting: false, disconnected_device: None }),
    }
}

/// The session while its manager is away.
pub open spec fn without_manager<M, T, L>(session: RecordingSession<M, T, L>) -> RecordingSession<
    M,
    T,
    L,
> {
    RecordingSession { manager: None, ..session }
}

/// The session with a manager put into it.
pub open spec fn with_manager<M, T, L>(
    session: RecordingSession<M, T, L>,
    manager: M,
) -> RecordingSession<M, T, L> {
    RecordingSession { manager: Some(manager), ..session }
}

/// Begin to reconnect a device by hand: read the device type, and take the manager
/// out of the session so that nothing waits for the attempt. A type that does not
/// exist is reported before the manager is looked at.
pub fn attempt_device_reconnect<M, T, L>(
    session: &mut RecordingSession<M, T, L>,
    device_type: &str,
) -> (result: Result<(M, DeviceMonitorType), String>)
    ensures
        match (DeviceMonitorType::of_name(device_type@), old(session).manager) {
            (None, _) => {
                &&& result is Err
                &&& result->Err_0@ == "Invalid device type: "@ + device_type@
                &&& *final(session) == *old(session)
            },
            (Some(_), None) => {
                &&& result is Err
                &&& result->Err_0@ == "Recording not active"@
                &&& *final(session) == *old(session)
            },
            (Some(monitor_type), Some(manager)) => {
                &&& result == Ok::<(M, DeviceMonitorType), String>((manager, monitor_type))
                &&& *final(session) == without_manager(*old(session))
            },
        },
{
    let monitor_type = match DeviceMonitorType::from_name(device_type) {
        Some(monitor_type) => monitor_type,
        None => return Err(joined("Invalid device type: ", device_type)),
    };
    match session.manager.take() {
        Some(manager) => Ok((manager, monitor_type)),
        None => Err("Recording not active".to_owned()),
    }
}

/// End an attempt to reconnect a device: put the manager back, whatever came of the
/// attempt. An attempt that failed does not end the recording.
pub fn device_reconnect_attempted<M, T, L>(
    session: &mut RecordingSession<M, T, L>,
    manager: M,
    attempt: Result<bool, String>,
) -> (result: Result<bool, String>)
    ensures
        result == attempt,
        *final(session) == with_manager(*old(session), manager),
{
    session.manager = Some(manager);
    attempt
}

/// An attempt to reconnect a device leaves the session as it found it. While it goes
/// on, the recording is still under way, but takes no command that needs the manager.
pub proof fn reconnecting_keeps_the_session<M, T, L>(session: RecordingSession<M, T, L>)
    requires
        session.manager is Some,
    ensures
        with_manager(without_manager(session), session.manager->0) == session,
        without_manager(session).is_recording == session.is_recording,
        refusal(without_manager(session)) is Some,
{
}

} // verus!
