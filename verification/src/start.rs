//! Starting a recording.
//!
//! The microphone is required and system audio is not. Either comes from the name
//! that is asked for, if the device can be had, and else is the default device.

use crate::clock::{effective_meeting_name, LocalTime};
use crate::device::{modelled, parse_audio_device, parsed, AudioDevice, DeviceModel, Platform};
use crate::session::RecordingSession;
use crate::text::{enclosed, joined, optional};
use vstd::prelude::*;

verus! {

/// How many workers transcribe.
pub const TRANSCRIPTION_WORKERS: u32 = 3;

// ---------------------------------------------------------------------------
// The startup
// ---------------------------------------------------------------------------

/// How far a startup is, and with that what to do next.
#[derive(Clone, Copy, Debug, PartialEq, Eq, Structural)]
pub enum StartStage {
    /// Find out whether the transcription model is ready.
    ValidateModel,
    /// Tell that it is not.
    TellModel,
    /// Load the recording preferences.
    LoadPreferences,
    /// Find out whether the microphone that is asked for can be had.
    ProbeMicrophone,
    /// Find the default microphone.
    DefaultMicrophone,
    /// Find out whether the system audio device that is asked for can be had.
    ProbeSystem,
    /// Find the default system audio device.
    DefaultSystem,
    /// Read the clock, to name the meeting.
    ReadClock,
    /// Have a manager record as planned.
    StartManager,
    /// Start the identification of speakers. The recording is under way.
    StartDiarization,
    /// Forget that speech was detected before.
    ResetSpeech,
    /// Start to transcribe.
    StartTranscription,
    /// Listen for transcripts.
    Listen,
    /// Tell that the recording started.
    TellStarted,
    /// Bring the tray menu up to date.
    UpdateTray,
    /// Nothing more to do.
    Finished,
}

/// The recording preferences.
#[derive(Debug)]
pub struct RecordingPreferences {
    pub auto_save: bool,
    pub preferred_mic_device: Option<String>,
    pub preferred_system_device: Option<String>,
    pub save_folder: String,
}

/// What came of doing what a stage says.
#[derive(Debug)]
pub enum StartReply<M, T, L> {
    /// It was done; there is nothing to tell of it.
    Done,
    /// Whether the model is ready.
    Model(Result<(), String>),
    /// The preferences, if they could be loaded.
    Preferences(Option<RecordingPreferences>),
    /// Whether the device can be had.
    Probed(bool),
    /// The default device.
    DefaultDevice(Result<AudioDevice, String>),
    /// The time.
    Time(LocalTime),
    /// The manager that records, or why it does not.
    Started(Result<M, String>),
    /// The task that transcribes.
    Task(T),
    /// The listener.
    Listening(L),
}

/// The device that was chosen.
#[derive(Debug)]
pub enum Choice {
    /// None was chosen yet.
    Undecided,
    /// The one that was asked for.
    Named,
    /// The default device.
    Default(AudioDevice),
    /// There is no device.
    Nothing,
}

/// Why a startup failed.
#[derive(Debug, PartialEq, Eq)]
pub enum StartFailure {
    /// A recording is under way already.
    AlreadyRecording,
    /// The transcription model is not ready.
    Model(String),
    /// The name of the microphone cannot be read.
    InvalidMicrophone,
    /// Neither the microphone that was asked for nor a default one can be had.
    NoMicrophone(String),
    /// The name of the system audio device cannot be read.
    InvalidSystemDevice,
    /// The manager does not record.
    Manager(String),
}

/// A startup.
#[derive(Debug)]
pub struct Startup {
    pub stage: StartStage,
    pub platform: Platform,
    /// The caller asks for devices; else the preferences do.
    pub by_request: bool,
    pub meeting_name: Option<String>,
    /// The name of the microphone that is asked for.
    pub microphone_name: Option<String>,
    /// The name of the system audio device that is asked for.
    pub system_name: Option<String>,
    pub microphone: Choice,
    pub system: Choice,
    pub auto_save: bool,
    /// Where to save, if not in the default folder.
    pub folder: Option<String>,
    pub time: Option<LocalTime>,
    pub failure: Option<StartFailure>,
}

/// A name is given and stands for a device.
pub open spec fn is_device_name(name: Option<String>) -> bool {
    name is Some && parsed(name->0@) is Ok
}

fn names_device(name: &Option<String>) -> (names: bool)
    ensures
        names == is_device_name(*name),
{
    match name {
        Some(text) => parse_audio_device(text.as_str()).is_ok(),
        None => false,
    }
}

/// The reply belongs to the stage.
pub open spec fn answers<M, T, L>(stage: StartStage, reply: StartReply<M, T, L>) -> bool {
    match stage {
        StartStage::ValidateModel => reply is Model,
        StartStage::LoadPreferences => reply is Preferences,
        StartStage::ProbeMicrophone => reply is Probed,
        StartStage::DefaultMicrophone => reply is DefaultDevice,
        StartStage::ProbeSystem => reply is Probed,
        StartStage::DefaultSystem => reply is DefaultDevice,
        StartStage::ReadClock => reply is Time,
        StartStage::StartManager => reply is Started,
        StartStage::StartTranscription => reply is Task,
        StartStage::Listen => reply is Listening,
        StartStage::Finished => false,
        _ => reply is Done,
    }
}

impl Startup {
    /// The startup ends with a failure.
    pub open spec fn failed(self, failure: StartFailure) -> Startup {
        Startup { failure: Some(failure), stage: StartStage::Finished, ..self }
    }

    /// The startup goes on to choose a microphone. A caller's name has to stand for a
    /// device; a preference that does not is passed over.
    pub open spec fn choosing_microphone(self) -> Startup {
        if is_device_name(self.microphone_name) {
            Startup { stage: StartStage::ProbeMicrophone, ..self }
        } else if self.by_request && self.microphone_name is Some {
            self.failed(StartFailure::InvalidMicrophone)
        } else {
            Startup { stage: StartStage::DefaultMicrophone, ..self }
        }
    }

    /// The startup goes on to choose a system audio device. On macOS, where system
    /// audio follows the default output, no name counts.
    pub open spec fn choosing_system(self) -> Startup {
        if self.platform is MacOs {
            Startup { stage: StartStage::DefaultSystem, ..self }
        } else if is_device_name(self.system_name) {
            Startup { stage: StartStage::ProbeSystem, ..self }
        } else if self.by_request && self.system_name is Some {
            self.failed(StartFailure::InvalidSystemDevice)
        } else {
            Startup { stage: StartStage::DefaultSystem, ..self }
        }
    }

    /// The startup goes on to name the meeting.
    pub open spec fn naming(self) -> Startup {
        Startup {
            stage: if self.meeting_name is Some {
                StartStage::StartManager
            } else {
                StartStage::ReadClock
            },
            ..self
        }
    }

    /// The startup has its devices. Where the caller asked for them, the preferences
    /// are still to be loaded, for the rest of what they say.
    pub open spec fn with_devices(self) -> Startup {
        if self.by_request {
            Startup { stage: StartStage::LoadPreferences, ..self }
        } else {
            self.naming()
        }
    }

    /// The startup after a reply. A reply that does not belong to the stage changes
    /// nothing.
    pub open spec fn after<M, T, L>(self, reply: StartReply<M, T, L>) -> Startup {
        match (self.stage, reply) {
            (StartStage::ValidateModel, StartReply::Model(Err(why))) => Startup {
                failure: Some(StartFailure::Model(why)),
                stage: StartStage::TellModel,
                ..self
            },
            (StartStage::ValidateModel, StartReply::Model(Ok(()))) => {
                if self.by_request {
                    self.choosing_microphone()
                } else {
                    Startup { stage: StartStage::LoadPreferences, ..self }
                }
            },
            (StartStage::TellModel, StartReply::Done) => Startup {
                stage: StartStage::Finished,
                ..self
            },
            (StartStage::LoadPreferences, StartReply::Preferences(Some(loaded))) => {
                if self.by_request {
                    Startup {
                        auto_save: loaded.auto_save,
                        folder: Some(loaded.save_folder),
                        ..self
                    }.naming()
                } else {
                    Startup {
                        auto_save: loaded.auto_save,
                        folder: Some(loaded.save_folder),
                        microphone_name: loaded.preferred_mic_device,
                        system_name: loaded.preferred_system_device,
                        ..self
                    }.choosing_microphone()
                }
            },
            (StartStage::LoadPreferences, StartReply::Preferences(None)) => {
                if self.by_request {
                    self.naming()
                } else {
                    self.choosing_microphone()
                }
            },
            (StartStage::ProbeMicrophone, StartReply::Probed(true)) => Startup {
                microphone: Choice::Named,
                ..self
            }.choosing_system(),
            (StartStage::ProbeMicrophone, StartReply::Probed(false)) => Startup {
                stage: StartStage::DefaultMicrophone,
                ..self
            },
            (StartStage::DefaultMicrophone, StartReply::DefaultDevice(Ok(device))) => Startup {
                microphone: Choice::Default(device),
                ..self
            }.choosing_system(),
            (StartStage::DefaultMicrophone, StartReply::DefaultDevice(Err(why))) => self.failed(
                StartFailure::NoMicrophone(why),
            ),
            (StartStage::ProbeSystem, StartReply::Probed(true)) => Startup {
                system: Choice::Named,
                ..self
            }.with_devices(),
            (StartStage::ProbeSystem, StartReply::Probed(false)) => Startup {
                stage: StartStage::DefaultSystem,
                ..self
            },
            (StartStage::DefaultSystem, StartReply::DefaultDevice(Ok(device))) => Startup {
                system: Choice::Default(device),
                ..self
            }.with_devices(),
            (StartStage::DefaultSystem, StartReply::DefaultDevice(Err(_))) => Startup {
                system: Choice::Nothing,
                ..self
            }.with_devices(),
            (StartStage::ReadClock, StartReply::Time(time)) => Startup {
                time: Some(time),
                stage: StartStage::StartManager,
                ..self
            },
            (StartStage::StartManager, StartReply::Started(Ok(_))) => Startup {
                stage: StartStage::StartDiarization,
                ..self
            },
            (StartStage::StartManager, StartReply::Started(Err(why))) => self.failed(
                StartFailure::Manager(why),
            ),
            (StartStage::StartDiarization, StartReply::Done) => Startup {
                stage: StartStage::ResetSpeech,
                ..self
            },
            (StartStage::ResetSpeech, StartReply::Done) => Startup {
                stage: StartStage::StartTranscription,
                ..self
            },
            (StartStage::StartTranscription, StartReply::Task(_)) => Startup {
                stage: StartStage::Listen,
                ..self
            },
            (StartStage::Listen, StartReply::Listening(_)) => Startup {
                stage: StartStage::TellStarted,
                ..self
            },
            (StartStage::TellStarted, StartReply::Done) => Startup {
                stage: StartStage::UpdateTray,
                ..self
            },
            (StartStage::UpdateTray, StartReply::Done) => Startup {
                stage: StartStage::Finished,
                ..self
            },
            _ => self,
        }
    }
}

/// The session after a reply: it keeps what the recording needs, and the recording
/// is under way once its manager records.
pub open spec fn session_after<M, T, L>(
    session: RecordingSession<M, T, L>,
    stage: StartStage,
    reply: StartReply<M, T, L>,
) -> RecordingSession<M, T, L> {
    match (stage, reply) {
        (StartStage::StartManager, StartReply::Started(Ok(manager))) => RecordingSession {
            is_recording: true,
            manager: Some(manager),
            ..session
        },
        (StartStage::StartTranscription, StartReply::Task(task)) => RecordingSession {
            transcription_task: Some(task),
            ..session
        },
        (StartStage::Listen, StartReply::Listening(listener)) => RecordingSession {
            transcript_listener: Some(listener),
            ..session
        },
        _ => session,
    }
}

/// A startup at its beginning, or at its end where a recording is under way already.
pub open spec fn begun(
    is_recording: bool,
    platform: Platform,
    by_request: bool,
    microphone_name: Option<String>,
    system_name: Option<String>,
    meeting_name: Option<String>,
) -> Startup {
    Startup {
        stage: if is_recording {
            StartStage::Finished
        } else {
            StartStage::ValidateModel
        },
        platform,
        by_request,
        meeting_name,
        microphone_name,
        system_name,
        microphone: Choice::Undecided,
        system: Choice::Undecided,
        auto_save: true,
        folder: None,
        time: None,
        failure: if is_recording {
            Some(StartFailure::AlreadyRecording)
        } else {
            None
        },
    }
}

fn begin(
    is_recording: bool,
    platform: Platform,
    by_request: bool,
    microphone_name: Option<String>,
    system_name: Option<String>,
    meeting_name: Option<String>,
) -> (startup: Startup)
    ensures
        startup == begun(
            is_recording,
            platform,
            by_request,
            microphone_name,
            system_name,
            meeting_name,
        ),
{
    Startup {
        stage: if is_recording {
            StartStage::Finished
        } else {
            StartStage::ValidateModel
        },
        platform,
        by_request,
        meeting_name,
        microphone_name,
        system_name,
        microphone: Choice::Undecided,
        system: Choice::Undecided,
        auto_save: true,
        folder: None,
        time: None,
        failure: if is_recording {
            Some(StartFailure::AlreadyRecording)
        } else {
            None
        },
    }
}

/// Start to record with the devices of the preferences.
pub fn start_recording<M, T, L>(session: &RecordingSession<M, T, L>, platform: Platform) -> (startup:
    Startup)
    ensures
        startup == begun(session.is_recording, platform, false, None, None, None),
{
    start_recording_with_meeting_name(session, platform, None)
}

/// Start to record a meeting of the given name with the devices of the preferences.
pub fn start_recording_with_meeting_name<M, T, L>(
    session: &RecordingSession<M, T, L>,
    platform: Platform,
    meeting_name: Option<String>,
) -> (startup: Startup)
    ensures
        startup == begun(session.is_recording, platform, false, None, None, meeting_name),
{
    begin(session.is_recording, platform, false, None, None, meeting_name)
}

/// Start to record with the given devices.
pub fn start_recording_with_devices<M, T, L>(
    session: &RecordingSession<M, T, L>,
    platform: Platform,
    mic_device_name: Option<String>,
    system_device_name: Option<String>,
) -> (startup: Startup)
    ensures
        startup == begun(
            session.is_recording,
            platform,
            true,
            mic_device_name,
            system_device_name,
            None,
        ),
{
    start_recording_with_devices_and_meeting(
        session,
        platform,
        mic_device_name,
        system_device_name,
        None,
    )
}

/// Start to record a meeting of the given name with the given devices.
pub fn start_recording_with_devices_and_meeting<M, T, L>(
    session: &RecordingSession<M, T, L>,
    platform: Platform,
    mic_device_name: Option<String>,
    system_device_name: Option<String>,
    meeting_name: Option<String>,
) -> (startup: Startup)
    ensures
        startup == begun(
            session.is_recording,
            platform,
            true,
            mic_device_name,
            system_device_name,
            meeting_name,
        ),
{
    begin(
        session.is_recording,
        platform,
        true,
        mic_device_name,
        system_device_name,
        meeting_name,
    )
}

impl Startup {
    fn fail(&mut self, failure: StartFailure)
        ensures
            *final(self) == old(self).failed(failure),
    {
        self.failure = Some(failure);
        self.stage = StartStage::Finished;
    }

    fn choose_microphone(&mut self)
        ensures
            *final(self) == old(self).choosing_microphone(),
    {
        if names_device(&self.microphone_name) {
            self.stage = StartStage::ProbeMicrophone;
        } else if self.by_request && self.microphone_name.is_some() {
            self.fail(StartFailure::InvalidMicrophone);
        } else {
            self.stage = StartStage::DefaultMicrophone;
        }
    }

    fn choose_system(&mut self)
        ensures
            *final(self) == old(self).choosing_system(),
    {
        match self.platform {
            Platform::MacOs => {
                self.stage = StartStage::DefaultSystem;
            },
            _ => {
                if names_device(&self.system_name) {
                    self.stage = StartStage::ProbeSystem;
                } else if self.by_request && self.system_name.is_some() {
                    self.fail(StartFailure::InvalidSystemDevice);
                } else {
                    self.stage = StartStage::DefaultSystem;
                }
            },
        }
    }

    fn go_on_to_name(&mut self)
        ensures
            *final(self) == old(self).naming(),
    {
        self.stage = if self.meeting_name.is_some() {
            StartStage::StartManager
        } else {
            StartStage::ReadClock
        };
    }

    fn go_on_with_devices(&mut self)
        ensures
            *final(self) == old(self).with_devices(),
    {
        if self.by_request {
            self.stage = StartStage::LoadPreferences;
        } else {
            self.go_on_to_name();
        }
    }

    fn load(&mut self, preferences: Option<RecordingPreferences>)
        requires
            old(self).stage is LoadPreferences,
        ensures
            *final(self) == old(self).after(
                StartReply::<(), (), ()>::Preferences(preferences),
            ),
    {
        match preferences {
            Some(loaded) => {
                self.auto_save = loaded.auto_save;
                self.folder = Some(loaded.save_folder);
                if self.by_request {
                    self.go_on_to_name();
                } else {
                    self.microphone_name = loaded.preferred_mic_device;
                    self.system_name = loaded.preferred_system_device;
                    self.choose_microphone();
                }
            },
            None => {
                if self.by_request {
                    self.go_on_to_name();
                } else {
                    self.choose_microphone();
                }
            },
        }
    }

    /// Take in what came of doing what the stage says.
    pub fn step<M, T, L>(
        &mut self,
        session: &mut RecordingSession<M, T, L>,
        reply: StartReply<M, T, L>,
    )
        ensures
            *final(self) == old(self).after(reply),
            *final(session) == session_after(*old(session), old(self).stage, reply),
    {
        match (self.stage, reply) {
            (StartStage::ValidateModel, StartReply::Model(Err(why))) => {
                self.failure = Some(StartFailure::Model(why));
                self.stage = StartStage::TellModel;
            },
            (StartStage::ValidateModel, StartReply::Model(Ok(()))) => {
                if self.by_request {
                    self.choose_microphone();
                } else {
                    self.stage = StartStage::LoadPreferences;
                }
            },
            (StartStage::TellModel, StartReply::Done) => {
                self.stage = StartStage::Finished;
            },
            (StartStage::LoadPreferences, StartReply::Preferences(preferences)) => {
                self.load(preferences);
            },
            (StartStage::ProbeMicrophone, StartReply::Probed(true)) => {
                self.microphone = Choice::Named;
                self.choose_system();
            },
            (StartStage::ProbeMicrophone, StartReply::Probed(false)) => {
                self.stage = StartStage::DefaultMicrophone;
            },
            (StartStage::DefaultMicrophone, StartReply::DefaultDevice(Ok(device))) => {
                self.microphone = Choice::Default(device);
                self.choose_system();
            },
            (StartStage::DefaultMicrophone, StartReply::DefaultDevice(Err(why))) => {
                self.fail(StartFailure::NoMicrophone(why));
            },
            (StartStage::ProbeSystem, StartReply::Probed(true)) => {
                self.system = Choice::Named;
                self.go_on_with_devices();
            },
            (StartStage::ProbeSystem, StartReply::Probed(false)) => {
                self.stage = StartStage::DefaultSystem;
            },
            (StartStage::DefaultSystem, StartReply::DefaultDevice(Ok(device))) => {
                self.system = Choice::Default(device);
                self.go_on_with_devices();
            },
            (StartStage::DefaultSystem, StartReply::DefaultDevice(Err(_))) => {
                self.system = Choice::Nothing;
                self.go_on_with_devices();
            },
            (StartStage::ReadClock, StartReply::Time(time)) => {
                self.time = Some(time);
                self.stage = StartStage::StartManager;
            },
            (StartStage::StartManager, StartReply::Started(Ok(manager))) => {
                session.manager = Some(manager);
                session.is_recording = true;
                self.stage = StartStage::StartDiarization;
            },
            (StartStage::StartManager, StartReply::Started(Err(why))) => {
                self.fail(StartFailure::Manager(why));
            },
            (StartStage::StartDiarization, StartReply::Done) => {
                self.stage = StartStage::ResetSpeech;
            },
            (StartStage::ResetSpeech, StartReply::Done) => {
                self.stage = StartStage::StartTranscription;
            },
            (StartStage::StartTranscription, StartReply::Task(task)) => {
                session.transcription_task = Some(task);
                self.stage = StartStage::Listen;
            },
            (StartStage::Listen, StartReply::Listening(listener)) => {
                session.transcript_listener = Some(listener);
                self.stage = StartStage::TellStarted;
            },
            (StartStage::TellStarted, StartReply::Done) => {
                self.stage = StartStage::UpdateTray;
            },
            (StartStage::UpdateTray, StartReply::Done) => {
                self.stage = StartStage::Finished;
            },
            _ => {},
        }
    }
}

// ---------------------------------------------------------------------------
// What a startup says
// ---------------------------------------------------------------------------

/// The device that a name stands for, if it is given and stands for one.
pub open spec fn device_named(name: Option<String>) -> Option<DeviceModel> {
    if is_device_name(name) {
        Some(parsed(name->0@)->Ok_0)
    } else {
        None
    }
}

/// A device or none, as its model.
pub open spec fn device_model(device: Option<AudioDevice>) -> Option<DeviceModel> {
    match device {
        Some(device) => Some(device@),
        None => None,
    }
}

/// The device that a choice stands for, where the name was asked for.
pub open spec fn chosen(choice: Choice, name: Option<String>) -> Option<DeviceModel> {
    match choice {
        Choice::Named => device_named(name),
        Choice::Default(device) => Some(device@),
        _ => None,
    }
}

fn named_device(name: &Option<String>) -> (device: Option<AudioDevice>)
    ensures
        device_model(device) == device_named(*name),
{
    match name {
        Some(text) => {
            let result = parse_audio_device(text.as_str());
            assert(modelled(result) == parsed(text@));
            match result {
                Ok(device) => Some(device),
                Err(_) => None,
            }
        },
        None => None,
    }
}

fn chosen_device(choice: &Choice, name: &Option<String>) -> (device: Option<AudioDevice>)
    ensures
        device_model(device) == chosen(*choice, *name),
{
    match choice {
        Choice::Named => named_device(name),
        Choice::Default(device) => Some(device.clone()),
        _ => None,
    }
}

/// What a manager is to record.
#[derive(Debug)]
pub struct RecordingPlan {
    pub microphone: Option<AudioDevice>,
    pub system_audio: Option<AudioDevice>,
    pub auto_save: bool,
    /// Where to save, if not in the default folder.
    pub folder: Option<String>,
    pub meeting_name: Option<String>,
}

/// What is told when the transcription model is not ready.
#[derive(Debug, PartialEq, Eq)]
pub struct ModelNotice {
    pub error: String,
    pub user_message: &'static str,
    pub actionable: bool,
}

/// What is told when the recording started.
#[derive(Debug, PartialEq, Eq)]
pub struct StartNotice {
    pub message: &'static str,
    pub microphone: String,
    pub system_audio: String,
    pub workers: u32,
}

impl Startup {
    /// The device that the stage is to find.
    pub open spec fn probed(self) -> Option<DeviceModel> {
        match self.stage {
            StartStage::ProbeMicrophone => device_named(self.microphone_name),
            StartStage::ProbeSystem => device_named(self.system_name),
            _ => None,
        }
    }

    /// The device that the stage is to find.
    pub fn probe_target(&self) -> (device: Option<AudioDevice>)
        ensures
            device_model(device) == self.probed(),
    {
        match self.stage {
            StartStage::ProbeMicrophone => named_device(&self.microphone_name),
            StartStage::ProbeSystem => named_device(&self.system_name),
            _ => None,
        }
    }

    /// The name that the meeting goes by: the given one, or one made of the time.
    pub open spec fn effective_name(self) -> Option<Seq<char>> {
        match (self.meeting_name, self.time) {
            (Some(name), _) => Some(name@),
            (None, Some(time)) => Some(time@.meeting_name()),
            (None, None) => None,
        }
    }

    /// What the manager is to record, as far as it is decided.
    pub fn plan(&self) -> (plan: RecordingPlan)
        ensures
            device_model(plan.microphone) == chosen(self.microphone, self.microphone_name),
            device_model(plan.system_audio) == chosen(self.system, self.system_name),
            plan.auto_save == self.auto_save,
            plan.folder == self.folder,
            optional(plan.meeting_name) == self.effective_name(),
    {
        RecordingPlan {
            microphone: chosen_device(&self.microphone, &self.microphone_name),
            system_audio: chosen_device(&self.system, &self.system_name),
            auto_save: self.auto_save,
            folder: match &self.folder {
                Some(folder) => Some(folder.clone()),
                None => None,
            },
            meeting_name: match (&self.meeting_name, &self.time) {
                (Some(name), _) => Some(name.clone()),
                (None, Some(time)) => Some(effective_meeting_name(None, time)),
                (None, None) => None,
            },
        }
    }

    /// The event that the stage sends, by its name.
    pub open spec fn event_name(self) -> Option<Seq<char>> {
        match self.stage {
            StartStage::TellModel => Some("transcription-error"@),
            StartStage::TellStarted => Some("recording-started"@),
            _ => None,
        }
    }

    /// The event that the stage sends, by its name.
    pub fn event(&self) -> (name: Option<&'static str>)
        ensures
            match name {
                Some(name) => self.event_name() == Some(name@),
                None => self.event_name() is None,
            },
    {
        match self.stage {
            StartStage::TellModel => Some("transcription-error"),
            StartStage::TellStarted => Some("recording-started"),
            _ => None,
        }
    }

    /// What is told when the transcription model is not ready.
    pub fn model_notice(&self) -> (notice: Option<ModelNotice>)
        ensures
            match (self.failure, notice) {
                (Some(StartFailure::Model(why)), Some(notice)) => {
                    &&& notice.error == why
                    &&& notice.user_message@
                        == "Recording cannot start: Transcription model is still downloading. Please wait for the download to complete."@
                    &&& !notice.actionable
                },
                (Some(StartFailure::Model(_)), None) => false,
                (_, notice) => notice is None,
            },
    {
        match &self.failure {
            Some(StartFailure::Model(why)) => Some(
                ModelNotice {
                    error: why.clone(),
                    user_message: "Recording cannot start: Transcription model is still downloading. Please wait for the download to complete.",
                    actionable: false,
                },
            ),
            _ => None,
        }
    }

    /// What is told when the recording started: the devices that the caller asked
    /// for, or that they are the default ones.
    pub fn start_notice(&self) -> (notice: StartNotice)
        ensures
            notice.message@ == if self.by_request {
                "Recording started with custom devices and parallel processing"@
            } else {
                "Recording started successfully with parallel processing"@
            },
            notice.microphone@ == if self.by_request && self.microphone_name is Some {
                self.microphone_name->0@
            } else {
                "Default Microphone"@
            },
            notice.system_audio@ == if self.by_request && self.system_name is Some {
                self.system_name->0@
            } else {
                "Default System Audio"@
            },
            notice.workers == TRANSCRIPTION_WORKERS,
    {
        StartNotice {
            message: if self.by_request {
                "Recording started with custom devices and parallel processing"
            } else {
                "Recording started successfully with parallel processing"
            },
            microphone: match (self.by_request, &self.microphone_name) {
                (true, Some(name)) => name.clone(),
                _ => "Default Microphone".to_owned(),
            },
            system_audio: match (self.by_request, &self.system_name) {
                (true, Some(name)) => name.clone(),
                _ => "Default System Audio".to_owned(),
            },
            workers: TRANSCRIPTION_WORKERS,
        }
    }

    /// Why there is no microphone, where the default one failed for a reason.
    pub open spec fn no_microphone_text(self, why: Seq<char>) -> Seq<char> {
        match (self.by_request, self.microphone_name) {
            (true, Some(name)) => "Requested microphone '"@ + name@
                + "' is unavailable and no default microphone exists: "@ + why,
            (true, None) => "No default microphone device available: "@ + why,
            (false, Some(name)) => if parsed(name@) is Ok {
                "No microphone device available. Preferred device '"@ + name@
                    + "' was not found, and the default microphone is unavailable: "@ + why
            } else {
                "No microphone device available. Preferred device '"@ + name@
                    + "' not found, and default microphone unavailable: "@ + why
            },
            (false, None) => "No microphone device available: "@ + why,
        }
    }

    /// The message for the failure of the startup, if it failed.
    pub open spec fn failure_text(self) -> Option<Seq<char>> {
        match self.failure {
            None => None,
            Some(StartFailure::AlreadyRecording) => Some("Recording already in progress"@),
            Some(StartFailure::Model(why)) => Some(why@),
            Some(StartFailure::InvalidMicrophone) => invalid_text(
                "Invalid microphone device '"@,
                self.microphone_name,
            ),
            Some(StartFailure::NoMicrophone(why)) => Some(self.no_microphone_text(why@)),
            Some(StartFailure::InvalidSystemDevice) => invalid_text(
                "Invalid system device '"@,
                self.system_name,
            ),
            Some(StartFailure::Manager(why)) => Some("Failed to start recording: "@ + why@),
        }
    }

    fn no_microphone_message(&self, why: &str) -> (text: String)
        ensures
            text@ == self.no_microphone_text(why@),
    {
        let before = match (self.by_request, &self.microphone_name) {
            (true, Some(name)) => enclosed(
                "Requested microphone '",
                name.as_str(),
                "' is unavailable and no default microphone exists: ",
            ),
            (true, None) => "No default microphone device available: ".to_owned(),
            (false, Some(name)) => if parse_audio_device(name.as_str()).is_ok() {
                enclosed(
                    "No microphone device available. Preferred device '",
                    name.as_str(),
                    "' was not found, and the default microphone is unavailable: ",
                )
            } else {
                enclosed(
                    "No microphone device available. Preferred device '",
                    name.as_str(),
                    "' not found, and default microphone unavailable: ",
                )
            },
            (false, None) => "No microphone device available: ".to_owned(),
        };
        joined(before.as_str(), why)
    }

    /// The message for the failure of the startup, if it failed.
    pub fn failure_message(&self) -> (message: Option<String>)
        ensures
            optional(message) == self.failure_text(),
    {
        match &self.failure {
            None => None,
            Some(StartFailure::AlreadyRecording) => Some(
                "Recording already in progress".to_owned(),
            ),
            Some(StartFailure::Model(why)) => Some(why.clone()),
            Some(StartFailure::InvalidMicrophone) => invalid_message(
                "Invalid microphone device '",
                &self.microphone_name,
            ),
            Some(StartFailure::NoMicrophone(why)) => Some(
                self.no_microphone_message(why.as_str()),
            ),
            Some(StartFailure::InvalidSystemDevice) => invalid_message(
                "Invalid system device '",
                &self.system_name,
            ),
            Some(StartFailure::Manager(why)) => Some(
                joined("Failed to start recording: ", why.as_str()),
            ),
        }
    }
}

/// What to say of a name that does not stand for a device.
pub open spec fn invalid_text(prefix: Seq<char>, name: Option<String>) -> Option<Seq<char>> {
    match name {
        Some(name) => match parsed(name@) {
            Err(error) => Some(prefix + name@ + "': "@ + error.text()),
            Ok(_) => None,
        },
        None => None,
    }
}

fn invalid_message(prefix: &str, name: &Option<String>) -> (text: Option<String>)
    ensures
        optional(text) == invalid_text(prefix@, *name),
{
    match name {
        Some(name) => {
            let result = parse_audio_device(name.as_str());
            assert(modelled(result) == parsed(name@));
            match result {
                Err(error) => {
                    let before = enclosed(prefix, name.as_str(), "': ");
                    Some(joined(before.as_str(), error.message()))
                },
                Ok(_) => None,
            }
        },
        None => None,
    }
}

// ---------------------------------------------------------------------------
// Laws
// ---------------------------------------------------------------------------

/// The place of a stage on the way of a startup. Preferences are loaded first, unless
/// the caller asks for devices.
pub open spec fn place(stage: StartStage, by_request: bool) -> int {
    match stage {
        StartStage::ValidateModel => 0,
        StartStage::LoadPreferences => if by_request {
            6
        } else {
            1
        },
        StartStage::ProbeMicrophone => 2,
        StartStage::DefaultMicrophone => 3,
        StartStage::ProbeSystem => 4,
        StartStage::DefaultSystem => 5,
        StartStage::ReadClock => 7,
        StartStage::StartManager => 8,
        StartStage::StartDiarization => 9,
        StartStage::ResetSpeech => 10,
        StartStage::StartTranscription => 11,
        StartStage::Listen => 12,
        StartStage::TellStarted => 13,
        StartStage::UpdateTray => 14,
        StartStage::TellModel => 14,
        StartStage::Finished => 15,
    }
}

impl Startup {
    /// The startup has left a stage behind, or has no use for it.
    pub open spec fn is_past(self, stage: StartStage) -> bool {
        place(self.stage, self.by_request) > place(stage, self.by_request)
    }
}

/// A startup always comes to its end: a reply that belongs to the stage takes it
/// further on its way, any other changes nothing.
pub proof fn startup_goes_forward<M, T, L>(startup: Startup, reply: StartReply<M, T, L>)
    ensures
        answers(startup.stage, reply) ==> startup.after(reply).is_past(startup.stage),
        !answers(startup.stage, reply) ==> startup.after(reply) == startup,
{
}

/// The manager of the startup records.
pub open spec fn has_started(startup: Startup) -> bool {
    startup.failure is None && startup.is_past(StartStage::StartManager)
}

/// A startup and its session belong together.
pub open spec fn in_step<M, T, L>(session: RecordingSession<M, T, L>, startup: Startup) -> bool {
    if startup.failure == Some(StartFailure::AlreadyRecording) {
        session.is_recording && startup.stage is Finished
    } else {
        // The recording is under way exactly once its manager records.
        &&& session.is_recording == has_started(startup)
        &&& has_started(startup) ==> {
            &&& session.manager is Some
            &&& startup.is_past(StartStage::StartTranscription) ==> session.transcription_task is Some
            &&& startup.is_past(StartStage::Listen) ==> session.transcript_listener is Some
        }
        // A startup that failed is over, once what is to be told is told.
        &&& startup.failure is Some ==> startup.stage is Finished || startup.stage is TellModel
        &&& startup.stage is TellModel ==> (startup.failure matches Some(StartFailure::Model(_)))
        // A microphone is chosen before a system audio device is.
        &&& startup.failure is None && startup.is_past(StartStage::DefaultMicrophone) ==> chosen(
            startup.microphone,
            startup.microphone_name,
        ) is Some
        &&& startup.failure is None && startup.is_past(StartStage::DefaultSystem) ==> !(
        startup.system is Undecided)
        &&& startup.failure is None && startup.is_past(StartStage::ReadClock)
            ==> startup.effective_name() is Some
        // Only what the caller asks for can be refused, and a device only for its name.
        &&& startup.failure == Some(StartFailure::InvalidMicrophone) ==> startup.by_request
            && startup.microphone_name is Some && !is_device_name(startup.microphone_name)
        &&& startup.failure == Some(StartFailure::InvalidSystemDevice) ==> startup.by_request
            && startup.system_name is Some && !is_device_name(startup.system_name) && !(
        startup.platform is MacOs)
        // On macOS, system audio is the default output or nothing.
        &&& startup.platform is MacOs ==> !(startup.system is Named)
        &&& startup.stage is ProbeMicrophone ==> is_device_name(startup.microphone_name)
        &&& startup.stage is ProbeSystem ==> is_device_name(startup.system_name) && !(
        startup.platform is MacOs)
        &&& startup.system is Named ==> is_device_name(startup.system_name)
        &&& !startup.by_request && !startup.is_past(StartStage::LoadPreferences)
            ==> startup.system is Undecided
    }
}

/// A startup begins in step with its session and stays so.
pub proof fn session_follows_the_startup<M, T, L>(
    session: RecordingSession<M, T, L>,
    startup: Startup,
    reply: StartReply<M, T, L>,
)
    ensures
        in_step(session, startup) ==> in_step(
            session_after(session, startup.stage, reply),
            startup.after(reply),
        ),
        forall|
            platform: Platform,
            by_request: bool,
            microphone: Option<String>,
            system: Option<String>,
            meeting: Option<String>,
        |
            in_step(
                session,
                #[trigger] begun(
                    session.is_recording,
                    platform,
                    by_request,
                    microphone,
                    system,
                    meeting,
                ),
            ),
{
}

/// While a recording is under way, no other starts, and asking for one does nothing to
/// it.
pub proof fn one_recording_at_a_time<M, T, L>(
    session: RecordingSession<M, T, L>,
    platform: Platform,
    by_request: bool,
    microphone: Option<String>,
    system: Option<String>,
    meeting: Option<String>,
    reply: StartReply<M, T, L>,
)
    requires
        session.is_recording,
    ensures
        ({
            let startup = begun(true, platform, by_request, microphone, system, meeting);
            &&& startup.stage is Finished
            &&& startup.failure_text() == Some("Recording already in progress"@)
            &&& startup.after(reply) == startup
            &&& session_after(session, startup.stage, reply) == session
        }),
{
}

/// The manager is always given a microphone and a name for the meeting.
pub proof fn microphone_is_required<M, T, L>(session: RecordingSession<M, T, L>, startup: Startup)
    requires
        in_step(session, startup),
        startup.stage is StartManager,
        startup.failure is None,
    ensures
        chosen(startup.microphone, startup.microphone_name) is Some,
        startup.effective_name() is Some,
{
}

/// System audio is optional: where its default device cannot be had, the startup goes
/// on without it, and where the preferences ask for it, nothing about it ends the
/// startup.
pub proof fn system_audio_is_optional<M, T, L>(startup: Startup, reply: StartReply<M, T, L>)
    requires
        startup.failure is None,
        startup.stage is DefaultSystem || startup.stage is ProbeSystem,
    ensures
        startup.after(reply).failure is None,
        startup.stage is DefaultSystem && (reply matches StartReply::DefaultDevice(Err(_))) ==> chosen(
            startup.after(reply).system,
            startup.after(reply).system_name,
        ) is None,
        !startup.by_request ==> startup.choosing_system().failure is None,
{
}

/// A startup that succeeds leaves a recording with all that it needs, which can be
/// stopped; one that fails leaves none that was not there before.
pub proof fn startup_succeeds_or_leaves_no_recording<M, T, L>(
    session: RecordingSession<M, T, L>,
    startup: Startup,
)
    requires
        in_step(session, startup),
        startup.stage is Finished,
        startup.failure != Some(StartFailure::AlreadyRecording),
    ensures
        startup.failure_text() is None ==> {
            &&& session.is_recording
            &&& session.manager is Some
            &&& session.transcription_task is Some
            &&& session.transcript_listener is Some
            &&& !session.is_stopping ==> crate::stop::first_stage(session)
                == crate::stop::StopStage::CloseCompactWindow
        },
        startup.failure_text() is Some ==> !session.is_recording,
{
}

} // verus!
