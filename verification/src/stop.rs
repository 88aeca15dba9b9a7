//! Stopping a recording.
//!
//! A shutdown goes through fixed stages, so that no transcript is lost: audio
//! capture ends first, then everything that is queued is transcribed, and only then
//! the model is unloaded and the recording saved. A stage that fails does not keep
//! the later ones from running.

use crate::session::RecordingSession;
use crate::text::{decimal, decimal_text, enclosed, joined, optional, same_text};
use vstd::prelude::*;

verus! {

/// How long to wait for the transcription settings.
pub const SETTINGS_TIMEOUT_SECS: u64 = 30;

/// How long to wait for the recording to be saved.
pub const SAVE_TIMEOUT_SECS: u64 = 300;

/// How often to tell of progress while the queue is transcribed.
pub const PROGRESS_INTERVAL_MS: u64 = 500;

/// What came of a request to stop.
#[derive(Clone, Copy, Debug, PartialEq, Eq, Structural)]
pub enum StopOutcome {
    Completed,
    AlreadyStopping,
    AlreadyStopped,
}

/// The engine whose model is unloaded.
#[derive(Clone, Copy, Debug, PartialEq, Eq, Structural)]
pub enum SpeechEngine {
    Parakeet,
    Whisper,
}

/// How far a shutdown is, and with that what to do next.
#[derive(Clone, Copy, Debug, PartialEq, Eq, Structural)]
pub enum StopStage {
    /// Close the compact window.
    CloseCompactWindow,
    /// Tell of progress: audio capture is being stopped.
    TellStopping,
    /// Have the manager stop its streams and flush what it has gathered.
    StopStreams,
    /// Tell of progress: the queue is being transcribed.
    TellTranscribing,
    /// Wait for the transcription task, however long it takes, telling of progress
    /// meanwhile.
    AwaitTask,
    /// Remove the transcript listener: until now, segments still arrived.
    RemoveListener,
    /// Tell of progress: the model is being unloaded.
    TellUnloading,
    /// Ask the settings for the transcription provider.
    AskProvider,
    /// Unload the model of an engine.
    UnloadModel(SpeechEngine),
    /// Report the meeting.
    ReportMeeting,
    /// Tell of progress: the recording is being saved.
    TellFinalizing,
    /// Have the manager save the recording.
    SaveRecording,
    /// Stop the identification of speakers. The recording is over.
    StopDiarization,
    /// Tell of progress: the shutdown is complete.
    TellComplete,
    /// Tell every window that the recording stopped.
    TellStopped,
    /// Bring the tray menu up to date.
    UpdateTray,
    /// Tell the main window to go on with the recording.
    NotifyMain,
    /// Nothing more to do.
    Finished(StopOutcome),
}

/// How the transcription task ended.
#[derive(Clone, Copy, Debug, PartialEq, Eq, Structural)]
pub enum TaskEnd {
    Completed,
    Failed,
}

/// What came of saving the recording.
#[derive(Debug, PartialEq, Eq)]
pub enum SaveResult {
    Saved,
    Failed(String),
    TimedOut,
    /// There was no manager to save it.
    NoManager,
}

/// What came of doing what a stage says.
#[derive(Debug)]
pub enum StopReply {
    /// It was done; there is nothing to tell of it.
    Done,
    /// Whether the streams stopped cleanly.
    Streams(Result<(), String>),
    /// How the transcription task ended.
    TaskEnded(TaskEnd),
    /// The transcription provider, if it could be found out.
    Provider(Option<String>),
    /// What came of saving, with the folder and the name of the meeting.
    Saved { result: SaveResult, folder: Option<String>, name: Option<String> },
}

/// A shutdown. It takes the manager, the task and the listener out of the session
/// as it comes to them, and lets go of each when it is done with it.
#[derive(Debug)]
pub struct Shutdown<M, T, L> {
    pub stage: StopStage,
    /// The main window comes back with the compact one gone.
    pub restore_main: bool,
    pub manager: Option<M>,
    pub task: Option<T>,
    pub listener: Option<L>,
    /// Why the streams did not stop cleanly.
    pub stream_error: Option<String>,
    pub save: SaveResult,
    pub folder: Option<String>,
    pub name: Option<String>,
}

/// The engine that a provider stands for. Whisper is the default.
pub open spec fn engine_of(provider: Option<String>) -> SpeechEngine {
    if optional(provider) == Some("parakeet"@) {
        SpeechEngine::Parakeet
    } else {
        SpeechEngine::Whisper
    }
}

fn engine(provider: &Option<String>) -> (engine: SpeechEngine)
    ensures
        engine == engine_of(*provider),
{
    match provider {
        Some(name) => if same_text(name.as_str(), "parakeet") {
            SpeechEngine::Parakeet
        } else {
            SpeechEngine::Whisper
        },
        None => SpeechEngine::Whisper,
    }
}

/// The reply belongs to the stage.
pub open spec fn answers(stage: StopStage, reply: StopReply) -> bool {
    match stage {
        StopStage::StopStreams => reply is Streams,
        StopStage::AwaitTask => reply is TaskEnded,
        StopStage::AskProvider => reply is Provider,
        StopStage::SaveRecording => reply is Saved,
        StopStage::Finished(_) => false,
        _ => reply is Done,
    }
}

impl<M, T, L> Shutdown<M, T, L> {
    /// The shutdown once the task is done with: the listener goes next, if there is
    /// one.
    pub open spec fn without_task(self, session: RecordingSession<M, T, L>) -> Self {
        Shutdown {
            task: None,
            listener: session.transcript_listener,
            stage: if session.transcript_listener is Some {
                StopStage::RemoveListener
            } else {
                StopStage::TellUnloading
            },
            ..self
        }
    }

    /// The shutdown after a reply. A reply that does not belong to the stage changes
    /// nothing.
    pub open spec fn after(self, session: RecordingSession<M, T, L>, reply: StopReply) -> Self {
        match (self.stage, reply) {
            (StopStage::CloseCompactWindow, StopReply::Done) => Shutdown {
                stage: StopStage::TellStopping,
                ..self
            },
            (StopStage::TellStopping, StopReply::Done) => Shutdown {
                manager: session.manager,
                stage: if session.manager is Some {
                    StopStage::StopStreams
                } else {
                    StopStage::TellTranscribing
                },
                ..self
            },
            (StopStage::StopStreams, StopReply::Streams(result)) => Shutdown {
                stream_error: match result {
                    Ok(()) => None,
                    Err(why) => Some(why),
                },
                stage: StopStage::TellTranscribing,
                ..self
            },
            (StopStage::TellTranscribing, StopReply::Done) => {
                if session.transcription_task is Some {
                    Shutdown {
                        task: session.transcription_task,
                        stage: StopStage::AwaitTask,
                        ..self
                    }
                } else {
                    self.without_task(session)
                }
            },
            (StopStage::AwaitTask, StopReply::TaskEnded(_)) => self.without_task(session),
            (StopStage::RemoveListener, StopReply::Done) => Shutdown {
                listener: None,
                stage: StopStage::TellUnloading,
                ..self
            },
            (StopStage::TellUnloading, StopReply::Done) => Shutdown {
                stage: StopStage::AskProvider,
                ..self
            },
            (StopStage::AskProvider, StopReply::Provider(provider)) => Shutdown {
                stage: StopStage::UnloadModel(engine_of(provider)),
                ..self
            },
            (StopStage::UnloadModel(_), StopReply::Done) => Shutdown {
                stage: if self.manager is Some {
                    StopStage::ReportMeeting
                } else {
                    StopStage::TellFinalizing
                },
                ..self
            },
            (StopStage::ReportMeeting, StopReply::Done) => Shutdown {
                stage: StopStage::TellFinalizing,
                ..self
            },
            (StopStage::TellFinalizing, StopReply::Done) => Shutdown {
                stage: if self.manager is Some {
                    StopStage::SaveRecording
                } else {
                    StopStage::StopDiarization
                },
                ..self
            },
            (StopStage::SaveRecording, StopReply::Saved { result, folder, name }) => Shutdown {
                manager: None,
                save: result,
                folder,
                name,
                stage: StopStage::StopDiarization,
                ..self
            },
            (StopStage::StopDiarization, StopReply::Done) => Shutdown {
                stage: StopStage::TellComplete,
                ..self
            },
            (StopStage::TellComplete, StopReply::Done) => Shutdown {
                stage: StopStage::TellStopped,
                ..self
            },
            (StopStage::TellStopped, StopReply::Done) => Shutdown {
                stage: StopStage::UpdateTray,
                ..self
            },
            (StopStage::UpdateTray, StopReply::Done) => Shutdown {
                stage: StopStage::NotifyMain,
                ..self
            },
            (StopStage::NotifyMain, StopReply::Done) => Shutdown {
                stage: StopStage::Finished(StopOutcome::Completed),
                ..self
            },
            _ => self,
        }
    }

    /// The folder and the name of the meeting, for the front end to save: both or
    /// none.
    pub open spec fn metadata(self) -> (Option<String>, Option<String>) {
        match (self.folder, self.name) {
            (Some(folder), Some(name)) => (Some(folder), Some(name)),
            _ => (None, None),
        }
    }

    /// Why the recording is incomplete, if it is: the streams, or saving, or both.
    pub open spec fn save_failure(self) -> Option<Seq<char>> {
        let streams = match self.stream_error {
            Some(why) => Some("Failed to stop audio streams cleanly: "@ + why@),
            None => None,
        };
        let saving = match self.save {
            SaveResult::Saved => None,
            SaveResult::Failed(why) => Some(why@),
            SaveResult::TimedOut => Some("Audio save timed out after 5 minutes"@),
            SaveResult::NoManager => Some("Recording manager was unavailable during save"@),
        };
        match (streams, saving) {
            (Some(first), Some(second)) => Some(first + "; "@ + second),
            (Some(only), None) => Some(only),
            (None, Some(only)) => Some(only),
            (None, None) => None,
        }
    }
}

/// What a step from one shutdown to the next does to the session: a handle that the
/// shutdown takes leaves it, the recording ends when saving is over, and the next
/// stop is let in when nothing is left to do.
pub open spec fn session_after<M, T, L>(
    session: RecordingSession<M, T, L>,
    before: StopStage,
    after: StopStage,
) -> RecordingSession<M, T, L> {
    RecordingSession {
        is_recording: session.is_recording && !(before != after && after is StopDiarization),
        is_stopping: session.is_stopping && !(before != after && after is Finished),
        manager: if before is TellStopping && before != after {
            None
        } else {
            session.manager
        },
        transcription_task: if before is TellTranscribing && before != after {
            None
        } else {
            session.transcription_task
        },
        transcript_listener: if before != after && (after is RemoveListener || after is TellUnloading)
            && !(before is RemoveListener) {
            None
        } else {
            session.transcript_listener
        },
    }
}

/// A shutdown at its beginning, or at its end where there is nothing to stop.
pub open spec fn begun<M, T, L>(stage: StopStage, restore_main: bool) -> Shutdown<M, T, L> {
    Shutdown {
        stage,
        restore_main,
        manager: None,
        task: None,
        listener: None,
        stream_error: None,
        save: SaveResult::NoManager,
        folder: None,
        name: None,
    }
}

/// The stage at which a request to stop finds the session.
pub open spec fn first_stage<M, T, L>(session: RecordingSession<M, T, L>) -> StopStage {
    if !session.is_recording {
        StopStage::Finished(StopOutcome::AlreadyStopped)
    } else if session.is_stopping {
        StopStage::Finished(StopOutcome::AlreadyStopping)
    } else {
        StopStage::CloseCompactWindow
    }
}

/// The session after a request to stop: of all requests, one gets to stop it.
pub open spec fn session_claimed<M, T, L>(session: RecordingSession<M, T, L>) -> RecordingSession<
    M,
    T,
    L,
> {
    RecordingSession { is_stopping: session.is_stopping || session.is_recording, ..session }
}

fn begin<M, T, L>(session: &mut RecordingSession<M, T, L>, restore_main: bool) -> (shutdown:
    Shutdown<M, T, L>)
    ensures
        shutdown == begun::<M, T, L>(first_stage(*old(session)), restore_main),
        *final(session) == session_claimed(*old(session)),
{
    let stage = if !session.is_recording {
        StopStage::Finished(StopOutcome::AlreadyStopped)
    } else if session.is_stopping {
        StopStage::Finished(StopOutcome::AlreadyStopping)
    } else {
        session.is_stopping = true;
        StopStage::CloseCompactWindow
    };
    Shutdown {
        stage,
        restore_main,
        manager: None,
        task: None,
        listener: None,
        stream_error: None,
        save: SaveResult::NoManager,
        folder: None,
        name: None,
    }
}

/// Stop the recording, losing no transcript.
pub fn stop_recording<M, T, L>(session: &mut RecordingSession<M, T, L>) -> (shutdown: Shutdown<
    M,
    T,
    L,
>)
    ensures
        shutdown == begun::<M, T, L>(first_stage(*old(session)), false),
        *final(session) == session_claimed(*old(session)),
{
    begin(session, false)
}

/// Stop the recording from the compact window, which hid the main window: the main
/// window comes back.
pub fn stop_recording_from_compact<M, T, L>(session: &mut RecordingSession<M, T, L>) -> (shutdown:
    Shutdown<M, T, L>)
    ensures
        shutdown == begun::<M, T, L>(first_stage(*old(session)), true),
        *final(session) == session_claimed(*old(session)),
{
    begin(session, true)
}

/// Stop the recording after a failure that ends it; `None` where none is under way.
/// The main window stays as it is: only the compact window hid it.
pub fn stop_after_fatal_error<M, T, L>(session: &mut RecordingSession<M, T, L>) -> (shutdown: Option<
    Shutdown<M, T, L>,
>)
    ensures
        match shutdown {
            Some(shutdown) => old(session).is_recording && shutdown == begun::<M, T, L>(
                first_stage(*old(session)),
                false,
            ) && *final(session) == session_claimed(*old(session)),
            None => !old(session).is_recording && *final(session) == *old(session),
        },
{
    if session.is_recording {
        Some(begin(session, false))
    } else {
        None
    }
}

/// Progress that is told of.
#[derive(Clone, Copy, Debug, PartialEq, Eq)]
pub struct ShutdownProgress {
    pub stage: &'static str,
    pub message: &'static str,
    pub progress: u8,
}

/// What the windows are told at the end of a shutdown: the message goes to every
/// window, the word to call the interface to the main window, the rest to both.
#[derive(Debug, PartialEq, Eq)]
pub struct StopNotice {
    pub message: &'static str,
    pub call_api: bool,
    pub folder_path: Option<String>,
    pub meeting_name: Option<String>,
    pub audio_save_error: Option<String>,
}

/// The progress that a stage tells of: its name, its message and a percentage.
pub open spec fn progress_of<M, T, L>(shutdown: Shutdown<M, T, L>) -> Option<(Seq<char>, Seq<char>, u8)> {
    match shutdown.stage {
        StopStage::TellStopping => Some(
            ("stopping_audio"@, "Stopping audio capture..."@, 20u8),
        ),
        StopStage::TellTranscribing => Some(
            ("processing_transcripts"@, "Processing remaining transcript chunks..."@, 40u8),
        ),
        StopStage::TellUnloading => Some(
            ("unloading_model"@, "Unloading speech recognition model..."@, 70u8),
        ),
        StopStage::TellFinalizing => Some(
            ("finalizing"@, "Finalizing recording and cleaning up resources..."@, 90u8),
        ),
        StopStage::TellComplete => Some(
            (
                "complete"@,
                if shutdown.save_failure() is Some {
                    "Recording stopped, but audio finalization reported an error"@
                } else {
                    "Recording stopped successfully"@
                },
                100u8,
            ),
        ),
        _ => None,
    }
}

/// What is told while the queue is transcribed.
pub open spec fn waiting_text(elapsed_secs: u64) -> Seq<char> {
    "Processing transcripts... ("@ + decimal(elapsed_secs as nat) + "s elapsed)"@
}

/// Progress that is told of while the queue is transcribed.
#[derive(Debug, PartialEq, Eq)]
pub struct WaitingProgress {
    pub stage: &'static str,
    pub message: String,
    pub progress: u8,
    pub detailed: bool,
    pub elapsed_seconds: u64,
}

/// What to tell every [`PROGRESS_INTERVAL_MS`] while the queue is transcribed, so many
/// seconds into it: the stage and the percentage stay what they were when it began.
pub fn waiting_progress(elapsed_secs: u64) -> (told: WaitingProgress)
    ensures
        told.stage@ == "processing_transcripts"@,
        told.message@ == waiting_text(elapsed_secs),
        told.progress == 40,
        told.detailed,
        told.elapsed_seconds == elapsed_secs,
{
    WaitingProgress {
        stage: "processing_transcripts",
        message: enclosed(
            "Processing transcripts... (",
            decimal_text(elapsed_secs).as_str(),
            "s elapsed)",
        ),
        progress: 40,
        detailed: true,
        elapsed_seconds: elapsed_secs,
    }
}

/// An event that is sent.
#[derive(Clone, Copy, Debug, PartialEq, Eq)]
pub struct StopEvent {
    pub name: &'static str,
    /// The window that it goes to, if not to every window.
    pub window: Option<&'static str>,
}

/// The name of the event that a stage sends, and the window that it goes to, if not to
/// every window.
pub open spec fn event_of(stage: StopStage) -> Option<(Seq<char>, Option<Seq<char>>)> {
    match stage {
        StopStage::TellStopping
        | StopStage::TellTranscribing
        | StopStage::AwaitTask
        | StopStage::TellUnloading
        | StopStage::TellFinalizing
        | StopStage::TellComplete => Some(("recording-shutdown-progress"@, None)),
        StopStage::TellStopped => Some(("recording-stopped"@, None)),
        StopStage::NotifyMain => Some(("recording-stop-complete"@, Some("main"@))),
        _ => None,
    }
}

impl StopStage {
    /// The event that the stage sends.
    pub fn event(&self) -> (event: Option<StopEvent>)
        ensures
            match event {
                Some(sent) => event_of(*self) == Some(
                    (
                        sent.name@,
                        match sent.window {
                            Some(window) => Some(window@),
                            None => None,
                        },
                    ),
                ),
                None => event_of(*self) is None,
            },
    {
        match self {
            StopStage::TellStopping
            | StopStage::TellTranscribing
            | StopStage::AwaitTask
            | StopStage::TellUnloading
            | StopStage::TellFinalizing
            | StopStage::TellComplete => Some(
                StopEvent { name: "recording-shutdown-progress", window: None },
            ),
            StopStage::TellStopped => Some(StopEvent { name: "recording-stopped", window: None }),
            StopStage::NotifyMain => Some(
                StopEvent { name: "recording-stop-complete", window: Some("main") },
            ),
            _ => None,
        }
    }
}

/// The event that tells of a failure that ends the recording.
pub fn fatal_error_event() -> (name: &'static str)
    ensures
        name@ == "recording-error"@,
{
    "recording-error"
}

impl<M, T, L> Shutdown<M, T, L> {
    fn leave_task(&mut self, session: &mut RecordingSession<M, T, L>)
        ensures
            *final(self) == old(self).without_task(*old(session)),
            *final(session) == (RecordingSession { transcript_listener: None::<L>, ..*old(session) }),
    {
        self.task = None;
        self.listener = session.transcript_listener.take();
        self.stage = if self.listener.is_some() {
            StopStage::RemoveListener
        } else {
            StopStage::TellUnloading
        };
    }

    /// Take in what came of doing what the stage says.
    pub fn step(&mut self, session: &mut RecordingSession<M, T, L>, reply: StopReply)
        ensures
            *final(self) == old(self).after(*old(session), reply),
            *final(session) == session_after(*old(session), old(self).stage, final(self).stage),
    {
        match (self.stage, reply) {
            (StopStage::CloseCompactWindow, StopReply::Done) => {
                self.stage = StopStage::TellStopping;
            },
            (StopStage::TellStopping, StopReply::Done) => {
                self.manager = session.manager.take();
                self.stage = if self.manager.is_some() {
                    StopStage::StopStreams
                } else {
                    StopStage::TellTranscribing
                };
            },
            (StopStage::StopStreams, StopReply::Streams(result)) => {
                self.stream_error = match result {
                    Ok(()) => None,
                    Err(why) => Some(why),
                };
                self.stage = StopStage::TellTranscribing;
            },
            (StopStage::TellTranscribing, StopReply::Done) => {
                let task = session.transcription_task.take();
                if task.is_some() {
                    self.task = task;
                    self.stage = StopStage::AwaitTask;
                } else {
                    self.leave_task(session);
                }
            },
            (StopStage::AwaitTask, StopReply::TaskEnded(_)) => {
                self.leave_task(session);
            },
            (StopStage::RemoveListener, StopReply::Done) => {
                self.listener = None;
                self.stage = StopStage::TellUnloading;
            },
            (StopStage::TellUnloading, StopReply::Done) => {
                self.stage = StopStage::AskProvider;
            },
            (StopStage::AskProvider, StopReply::Provider(provider)) => {
                self.stage = StopStage::UnloadModel(engine(&provider));
            },
            (StopStage::UnloadModel(_), StopReply::Done) => {
                self.stage = if self.manager.is_some() {
                    StopStage::ReportMeeting
                } else {
                    StopStage::TellFinalizing
                };
            },
            (StopStage::ReportMeeting, StopReply::Done) => {
                self.stage = StopStage::TellFinalizing;
            },
            (StopStage::TellFinalizing, StopReply::Done) => {
                if self.manager.is_some() {
                    self.stage = StopStage::SaveRecording;
                } else {
                    self.stage = StopStage::StopDiarization;
                    session.is_recording = false;
                }
            },
            (StopStage::SaveRecording, StopReply::Saved { result, folder, name }) => {
                self.manager = None;
                self.save = result;
                self.folder = folder;
                self.name = name;
                self.stage = StopStage::StopDiarization;
                session.is_recording = false;
            },
            (StopStage::StopDiarization, StopReply::Done) => {
                self.stage = StopStage::TellComplete;
            },
            (StopStage::TellComplete, StopReply::Done) => {
                self.stage = StopStage::TellStopped;
            },
            (StopStage::TellStopped, StopReply::Done) => {
                self.stage = StopStage::UpdateTray;
            },
            (StopStage::UpdateTray, StopReply::Done) => {
                self.stage = StopStage::NotifyMain;
            },
            (StopStage::NotifyMain, StopReply::Done) => {
                self.stage = StopStage::Finished(StopOutcome::Completed);
                session.is_stopping = false;
            },
            _ => {},
        }
    }

    /// Why the recording is incomplete, if it is.
    pub fn audio_save_error(&self) -> (error: Option<String>)
        ensures
            optional(error) == self.save_failure(),
    {
        let streams = match &self.stream_error {
            Some(why) => Some(joined("Failed to stop audio streams cleanly: ", why.as_str())),
            None => None,
        };
        let saving = match &self.save {
            SaveResult::Saved => None,
            SaveResult::Failed(why) => Some(why.clone()),
            SaveResult::TimedOut => Some("Audio save timed out after 5 minutes".to_owned()),
            SaveResult::NoManager => Some(
                "Recording manager was unavailable during save".to_owned(),
            ),
        };
        match (streams, saving) {
            (Some(first), Some(second)) => Some(enclosed(first.as_str(), "; ", second.as_str())),
            (Some(only), None) => Some(only),
            (None, Some(only)) => Some(only),
            (None, None) => None,
        }
    }

    /// What the windows are told at the end.
    pub fn notice(&self) -> (notice: StopNotice)
        ensures
            notice.message@
                == "Recording stopped - frontend will save after all transcripts received"@,
            notice.call_api,
            (notice.folder_path, notice.meeting_name) == self.metadata(),
            optional(notice.audio_save_error) == self.save_failure(),
    {
        let (folder_path, meeting_name) = match (&self.folder, &self.name) {
            (Some(folder), Some(name)) => (Some(folder.clone()), Some(name.clone())),
            _ => (None, None),
        };
        StopNotice {
            message: "Recording stopped - frontend will save after all transcripts received",
            call_api: true,
            folder_path,
            meeting_name,
            audio_save_error: self.audio_save_error(),
        }
    }

    /// The progress that the stage tells of.
    pub fn progress(&self) -> (progress: Option<ShutdownProgress>)
        ensures
            match progress {
                Some(told) => progress_of(*self) == Some(
                    (told.stage@, told.message@, told.progress),
                ),
                None => progress_of(*self) is None,
            },
    {
        match self.stage {
            StopStage::TellStopping => Some(
                ShutdownProgress {
                    stage: "stopping_audio",
                    message: "Stopping audio capture...",
                    progress: 20,
                },
            ),
            StopStage::TellTranscribing => Some(
                ShutdownProgress {
                    stage: "processing_transcripts",
                    message: "Processing remaining transcript chunks...",
                    progress: 40,
                },
            ),
            StopStage::TellUnloading => Some(
                ShutdownProgress {
                    stage: "unloading_model",
                    message: "Unloading speech recognition model...",
                    progress: 70,
                },
            ),
            StopStage::TellFinalizing => Some(
                ShutdownProgress {
                    stage: "finalizing",
                    message: "Finalizing recording and cleaning up resources...",
                    progress: 90,
                },
            ),
            StopStage::TellComplete => {
                let message = if self.audio_save_error().is_some() {
                    "Recording stopped, but audio finalization reported an error"
                } else {
                    "Recording stopped successfully"
                };
                Some(ShutdownProgress { stage: "complete", message, progress: 100 })
            },
            _ => None,
        }
    }
}

// ---------------------------------------------------------------------------
// Laws
// ---------------------------------------------------------------------------

/// The place of a stage in the order of all stages.
pub open spec fn place(stage: StopStage) -> int {
    match stage {
        StopStage::CloseCompactWindow => 0,
        StopStage::TellStopping => 1,
        StopStage::StopStreams => 2,
        StopStage::TellTranscribing => 3,
        StopStage::AwaitTask => 4,
        StopStage::RemoveListener => 5,
        StopStage::TellUnloading => 6,
        StopStage::AskProvider => 7,
        StopStage::UnloadModel(_) => 8,
        StopStage::ReportMeeting => 9,
        StopStage::TellFinalizing => 10,
        StopStage::SaveRecording => 11,
        StopStage::StopDiarization => 12,
        StopStage::TellComplete => 13,
        StopStage::TellStopped => 14,
        StopStage::UpdateTray => 15,
        StopStage::NotifyMain => 16,
        StopStage::Finished(_) => 17,
    }
}

/// A shutdown always comes to its end and never goes back: a reply that belongs to
/// the stage takes it to a later stage, any other changes nothing.
pub proof fn shutdown_goes_forward<M, T, L>(
    shutdown: Shutdown<M, T, L>,
    session: RecordingSession<M, T, L>,
    reply: StopReply,
)
    ensures
        answers(shutdown.stage, reply) ==> place(shutdown.after(session, reply).stage) > place(
            shutdown.stage,
        ),
        !answers(shutdown.stage, reply) ==> shutdown.after(session, reply) == shutdown,
{
}

/// Whatever fails, no stage is passed over but one that has nothing to work on: the
/// manager's, the task's and the listener's stages where there is none.
pub proof fn shutdown_leaves_nothing_out<M, T, L>(
    shutdown: Shutdown<M, T, L>,
    session: RecordingSession<M, T, L>,
    reply: StopReply,
    skipped: StopStage,
)
    requires
        place(shutdown.stage) < place(skipped) < place(shutdown.after(session, reply).stage),
    ensures
        match skipped {
            StopStage::StopStreams => session.manager is None,
            StopStage::AwaitTask => session.transcription_task is None,
            StopStage::RemoveListener => session.transcript_listener is None,
            StopStage::ReportMeeting => shutdown.manager is None,
            StopStage::SaveRecording => shutdown.manager is None,
            _ => false,
        },
{
}

/// The session and the shutdown that runs on it belong together: the recording counts
/// as under way until it is saved, and as being stopped until everyone is told; each
/// handle is in the session before its turn and nowhere after it.
pub open spec fn in_step<M, T, L>(
    session: RecordingSession<M, T, L>,
    shutdown: Shutdown<M, T, L>,
) -> bool {
    let now = place(shutdown.stage);
    match shutdown.stage {
        StopStage::Finished(StopOutcome::AlreadyStopped) => !session.is_recording,
        StopStage::Finished(StopOutcome::AlreadyStopping) => session.is_recording
            && session.is_stopping,
        _ => {
            &&& session.is_recording == (now < place(StopStage::StopDiarization))
            &&& session.is_stopping == !(shutdown.stage is Finished)
            &&& now > place(StopStage::TellStopping) ==> session.manager is None
            &&& now > place(StopStage::TellTranscribing) ==> session.transcription_task is None
            &&& now > place(StopStage::AwaitTask) ==> session.transcript_listener is None
            &&& shutdown.manager is Some ==> place(StopStage::TellStopping) < now < place(
                StopStage::StopDiarization,
            )
            &&& shutdown.task is Some <==> shutdown.stage is AwaitTask
            &&& shutdown.listener is Some <==> shutdown.stage is RemoveListener
        },
    }
}

/// A shutdown begins in step with its session and stays so. So a completed one leaves
/// no recording, and neither a manager nor a task nor a listener of it.
pub proof fn session_follows_the_shutdown<M, T, L>(
    session: RecordingSession<M, T, L>,
    shutdown: Shutdown<M, T, L>,
    reply: StopReply,
    restore_main: bool,
)
    ensures
        in_step(session_claimed(session), begun::<M, T, L>(first_stage(session), restore_main)),
        in_step(session, shutdown) ==> in_step(
            session_after(session, shutdown.stage, shutdown.after(session, reply).stage),
            shutdown.after(session, reply),
        ),
{
}

/// While a recording is being stopped, the window cannot shrink to its compact form
/// and no second shutdown begins.
pub proof fn stopping_shuts_everyone_else_out<M, T, L>(
    session: RecordingSession<M, T, L>,
    shutdown: Shutdown<M, T, L>,
)
    requires
        in_step(session, shutdown),
        !(shutdown.stage is Finished),
    ensures
        !(session.is_recording && !session.is_stopping),
        first_stage(session) is Finished,
        session_claimed(session) == session,
{
}

/// No transcript is lost: while there is a transcription task, the shutdown waits for
/// it, and only once the task has ended the listener that keeps its segments leaves
/// the session. Only after that a model is unloaded.
pub proof fn segments_are_kept_until_transcription_ends<M, T, L>(
    session: RecordingSession<M, T, L>,
    shutdown: Shutdown<M, T, L>,
    reply: StopReply,
)
    requires
        in_step(session, shutdown),
    ensures
        ({
            let after = shutdown.after(session, reply);
            let left = session_after(session, shutdown.stage, after.stage);
            &&& left.transcript_listener != session.transcript_listener ==> after.task is None
                && left.transcription_task is None && (shutdown.task is Some
                ==> reply is TaskEnded)
            &&& shutdown.task is Some && !(reply is TaskEnded) ==> after == shutdown && left
                == session
            &&& session.transcription_task is Some && !(left.transcription_task is Some)
                ==> after.task == session.transcription_task && after.stage is AwaitTask
            &&& after.stage is UnloadModel ==> after.task is None && left.transcription_task is None
                && after.listener is None && left.transcript_listener is None
        }),
{
}

/// A recording is complete exactly where its streams stopped cleanly and it was
/// saved.
pub proof fn complete_means_stopped_and_saved<M, T, L>(shutdown: Shutdown<M, T, L>)
    ensures
        shutdown.save_failure() is None <==> shutdown.stream_error is None && shutdown.save is Saved,
{
}

/// Progress only ever grows.
pub proof fn progress_grows<M, T, L>(earlier: Shutdown<M, T, L>, later: Shutdown<M, T, L>)
    requires
        progress_of(earlier) is Some,
        progress_of(later) is Some,
        place(earlier.stage) < place(later.stage),
    ensures
        progress_of(earlier) matches Some((_, _, before)) && progress_of(later) matches Some(
            (_, _, after),
        ) && before < after <= 100,
{
}

} // verus!
