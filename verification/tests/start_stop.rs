use meetily_audio::clock::LocalTime;
use meetily_audio::device::{AudioDevice, DeviceType, Platform};
use meetily_audio::session::{can_enter_compact_mode, is_recording, RecordingSession};
use meetily_audio::start::{
    start_recording, start_recording_with_devices, start_recording_with_devices_and_meeting,
    start_recording_with_meeting_name, RecordingPreferences, StartReply, StartStage, Startup,
};
use meetily_audio::stop::{
    fatal_error_event, stop_after_fatal_error, stop_recording, stop_recording_from_compact,
    waiting_progress, SaveResult, SpeechEngine, StopOutcome, StopReply, StopStage, TaskEnd,
    WaitingProgress,
};

type Session = RecordingSession<&'static str, &'static str, u32>;
type Reply = StartReply<&'static str, &'static str, u32>;

fn text(s: &str) -> Option<String> {
    Some(s.to_string())
}

fn input(name: &str) -> AudioDevice {
    AudioDevice::new(name.to_string(), DeviceType::Input)
}

fn output(name: &str) -> AudioDevice {
    AudioDevice::new(name.to_string(), DeviceType::Output)
}

fn preferences(mic: Option<String>, system: Option<String>) -> Reply {
    StartReply::Preferences(Some(RecordingPreferences {
        auto_save: false,
        preferred_mic_device: mic,
        preferred_system_device: system,
        save_folder: "/meetings".to_string(),
    }))
}

fn feed(startup: &mut Startup, session: &mut Session, replies: Vec<Reply>) -> Vec<StartStage> {
    replies
        .into_iter()
        .map(|reply| {
            startup.step(session, reply);
            startup.stage
        })
        .collect()
}

fn finish() -> Vec<Reply> {
    vec![
        StartReply::Started(Ok("manager")),
        StartReply::Done,
        StartReply::Done,
        StartReply::Task("task"),
        StartReply::Listening(17),
        StartReply::Done,
        StartReply::Done,
    ]
}

#[test]
fn a_recording_starts_with_the_preferred_devices() {
    let mut session = Session::new();
    let mut startup = start_recording(&session, Platform::Linux);
    let passed = feed(
        &mut startup,
        &mut session,
        vec![
            StartReply::Model(Ok(())),
            preferences(text("Mic (input)"), text("TV (System Audio) (output)")),
        ],
    );
    assert_eq!(passed, vec![StartStage::LoadPreferences, StartStage::ProbeMicrophone]);
    assert_eq!(startup.probe_target().unwrap(), input("Mic"));
    startup.step(&mut session, StartReply::Probed(true));
    assert_eq!(startup.stage, StartStage::ProbeSystem);
    assert_eq!(startup.probe_target().unwrap(), output("TV (System Audio)"));
    startup.step(&mut session, StartReply::Probed(true));
    assert_eq!(startup.stage, StartStage::ReadClock);
    let time = LocalTime::new(2025, 10, 3, 8, 25, 23).unwrap();
    startup.step(&mut session, StartReply::Time(time));
    assert_eq!(startup.stage, StartStage::StartManager);
    let plan = startup.plan();
    assert_eq!(plan.microphone, Some(input("Mic")));
    assert_eq!(plan.system_audio, Some(output("TV (System Audio)")));
    assert_eq!(plan.meeting_name, text("Meeting 2025-10-03_08-25-23"));
    assert_eq!(plan.folder, text("/meetings"));
    assert!(!plan.auto_save);
    assert!(!is_recording(&session));
    let passed = feed(&mut startup, &mut session, finish());
    assert_eq!(
        passed,
        vec![
            StartStage::StartDiarization,
            StartStage::ResetSpeech,
            StartStage::StartTranscription,
            StartStage::Listen,
            StartStage::TellStarted,
            StartStage::UpdateTray,
            StartStage::Finished,
        ]
    );
    assert_eq!(startup.failure_message(), None);
    assert!(session.is_recording);
    assert_eq!(session.manager, Some("manager"));
    assert_eq!(session.transcription_task, Some("task"));
    assert_eq!(session.transcript_listener, Some(17));
    let notice = startup.start_notice();
    assert_eq!(notice.message, "Recording started successfully with parallel processing");
    assert_eq!(notice.microphone, "Default Microphone");
    assert_eq!(notice.system_audio, "Default System Audio");
    assert_eq!(notice.workers, 3);
}

#[test]
fn preferences_that_do_not_help_are_passed_over() {
    let mut session = Session::new();
    let mut startup =
        start_recording_with_meeting_name(&session, Platform::Linux, text("Standup"));
    let passed = feed(
        &mut startup,
        &mut session,
        vec![
            StartReply::Model(Ok(())),
            preferences(text("Mic"), text("TV")),
            StartReply::DefaultDevice(Ok(input("Built-in"))),
            StartReply::DefaultDevice(Err("none".to_string())),
        ],
    );
    assert_eq!(
        passed,
        vec![
            StartStage::LoadPreferences,
            StartStage::DefaultMicrophone,
            StartStage::DefaultSystem,
            StartStage::StartManager,
        ]
    );
    let plan = startup.plan();
    assert_eq!(plan.microphone, Some(input("Built-in")));
    assert_eq!(plan.system_audio, None);
    assert_eq!(plan.meeting_name, text("Standup"));
}

#[test]
fn preferences_that_cannot_be_loaded_are_replaced() {
    let mut session = Session::new();
    let mut startup =
        start_recording_with_meeting_name(&session, Platform::Linux, text("Standup"));
    feed(
        &mut startup,
        &mut session,
        vec![
            StartReply::Model(Ok(())),
            StartReply::Preferences(None),
            StartReply::DefaultDevice(Ok(input("Built-in"))),
            StartReply::DefaultDevice(Ok(output("TV"))),
        ],
    );
    let plan = startup.plan();
    assert!(plan.auto_save);
    assert_eq!(plan.folder, None);
    assert_eq!(plan.system_audio, Some(output("TV")));
}

#[test]
fn devices_that_are_gone_are_replaced_by_the_defaults() {
    let mut session = Session::new();
    let mut startup = start_recording_with_devices_and_meeting(
        &session,
        Platform::Linux,
        text("Mic (input)"),
        text("TV (output)"),
        text("Standup"),
    );
    let passed = feed(
        &mut startup,
        &mut session,
        vec![
            StartReply::Model(Ok(())),
            StartReply::Probed(false),
            StartReply::DefaultDevice(Ok(input("Built-in"))),
            StartReply::Probed(false),
            StartReply::DefaultDevice(Ok(output("Speakers"))),
            preferences(text("Other (input)"), None),
        ],
    );
    assert_eq!(
        passed,
        vec![
            StartStage::ProbeMicrophone,
            StartStage::DefaultMicrophone,
            StartStage::ProbeSystem,
            StartStage::DefaultSystem,
            StartStage::LoadPreferences,
            StartStage::StartManager,
        ]
    );
    let plan = startup.plan();
    assert_eq!(plan.microphone, Some(input("Built-in")));
    assert_eq!(plan.system_audio, Some(output("Speakers")));
    assert!(!plan.auto_save);
    let notice = startup.start_notice();
    assert_eq!(notice.message, "Recording started with custom devices and parallel processing");
    assert_eq!(notice.microphone, "Mic (input)");
    assert_eq!(notice.system_audio, "TV (output)");
}

#[test]
fn system_audio_follows_the_default_output_on_macos() {
    let mut session = Session::new();
    let mut startup = start_recording_with_devices(
        &session,
        Platform::MacOs,
        None,
        text("not a device name"),
    );
    let passed = feed(
        &mut startup,
        &mut session,
        vec![
            StartReply::Model(Ok(())),
            StartReply::DefaultDevice(Ok(input("Built-in"))),
            StartReply::DefaultDevice(Ok(output("Speakers"))),
        ],
    );
    assert_eq!(
        passed,
        vec![
            StartStage::DefaultMicrophone,
            StartStage::DefaultSystem,
            StartStage::LoadPreferences,
        ]
    );
    assert_eq!(startup.plan().system_audio, Some(output("Speakers")));
}

fn failure(startup: Startup, replies: Vec<Reply>) -> String {
    let mut startup = startup;
    let mut session = Session::new();
    let passed = feed(&mut startup, &mut session, replies);
    assert_eq!(passed.last(), Some(&StartStage::Finished));
    assert!(!session.is_recording);
    startup.failure_message().unwrap()
}

#[test]
fn startups_say_why_they_failed() {
    let session = Session::new();
    let preferred = || start_recording(&session, Platform::Linux);
    let requested = |mic: Option<&str>, system: Option<&str>| {
        start_recording_with_devices(
            &session,
            Platform::Linux,
            mic.map(|s| s.to_string()),
            system.map(|s| s.to_string()),
        )
    };
    let ready = || StartReply::Model(Ok(()));
    let none = || StartReply::DefaultDevice(Err("no input".to_string()));
    assert_eq!(
        failure(preferred(), vec![ready(), preferences(None, None), none()]),
        "No microphone device available: no input"
    );
    assert_eq!(
        failure(preferred(), vec![ready(), preferences(text("Mic"), None), none()]),
        "No microphone device available. Preferred device 'Mic' not found, and default microphone unavailable: no input"
    );
    assert_eq!(
        failure(
            preferred(),
            vec![ready(), preferences(text("Mic (input)"), None), StartReply::Probed(false), none()],
        ),
        "No microphone device available. Preferred device 'Mic (input)' was not found, and the default microphone is unavailable: no input"
    );
    assert_eq!(
        failure(requested(None, None), vec![ready(), none()]),
        "No default microphone device available: no input"
    );
    assert_eq!(
        failure(requested(Some("Mic (input)"), None), vec![ready(), StartReply::Probed(false), none()]),
        "Requested microphone 'Mic (input)' is unavailable and no default microphone exists: no input"
    );
    assert_eq!(
        failure(requested(Some("Mic"), None), vec![ready()]),
        "Invalid microphone device 'Mic': Device type (input/output) not specified in the name"
    );
    assert_eq!(
        failure(
            requested(None, Some("")),
            vec![ready(), StartReply::DefaultDevice(Ok(input("Built-in")))],
        ),
        "Invalid system device '': Device name cannot be empty"
    );
    assert_eq!(
        failure(
            start_recording_with_meeting_name(&session, Platform::Linux, text("Standup")),
            vec![
                ready(),
                StartReply::Preferences(None),
                StartReply::DefaultDevice(Ok(input("Built-in"))),
                StartReply::DefaultDevice(Ok(output("TV"))),
                StartReply::Started(Err("busy".to_string())),
            ],
        ),
        "Failed to start recording: busy"
    );
}

#[test]
fn a_model_that_is_not_ready_is_told() {
    let mut session = Session::new();
    let mut startup = start_recording(&session, Platform::Linux);
    assert_eq!(startup.model_notice(), None);
    let passed = feed(
        &mut startup,
        &mut session,
        vec![
            StartReply::Model(Err("downloading".to_string())),
            StartReply::Model(Ok(())),
            StartReply::Done,
        ],
    );
    assert_eq!(
        passed,
        vec![StartStage::TellModel, StartStage::TellModel, StartStage::Finished]
    );
    let notice = startup.model_notice().unwrap();
    assert_eq!(notice.error, "downloading");
    assert_eq!(
        notice.user_message,
        "Recording cannot start: Transcription model is still downloading. Please wait for the download to complete."
    );
    assert!(!notice.actionable);
    assert_eq!(startup.failure_message(), text("downloading"));
}

fn recording() -> Session {
    let mut session = Session::new();
    let mut startup =
        start_recording_with_meeting_name(&session, Platform::Linux, text("Standup"));
    let mut replies = vec![
        StartReply::Model(Ok(())),
        StartReply::Preferences(None),
        StartReply::DefaultDevice(Ok(input("Built-in"))),
        StartReply::DefaultDevice(Ok(output("TV"))),
    ];
    replies.extend(finish());
    feed(&mut startup, &mut session, replies);
    assert!(session.is_recording);
    session
}

#[test]
fn only_one_recording_runs_at_a_time() {
    let mut session = recording();
    let mut startup = start_recording(&session, Platform::Linux);
    assert_eq!(startup.stage, StartStage::Finished);
    assert_eq!(startup.failure_message(), text("Recording already in progress"));
    startup.step(&mut session, StartReply::Started(Ok("other")));
    assert_eq!(session.manager, Some("manager"));
}

fn saved(result: SaveResult) -> StopReply {
    StopReply::Saved { result, folder: text("/meetings/Standup"), name: text("Standup") }
}

#[test]
fn a_recording_is_stopped_stage_by_stage() {
    let mut session = recording();
    let mut shutdown = stop_recording(&mut session);
    assert!(!shutdown.restore_main);
    assert!(session.is_stopping && !can_enter_compact_mode(&session));
    assert_eq!(shutdown.stage, StopStage::CloseCompactWindow);
    let mut told = Vec::new();
    let mut passed = Vec::new();
    for reply in [
        StopReply::Done,
        StopReply::Done,
        StopReply::Streams(Ok(())),
        StopReply::Done,
        StopReply::TaskEnded(TaskEnd::Completed),
        StopReply::Done,
        StopReply::Done,
        StopReply::Provider(text("parakeet")),
        StopReply::Done,
        StopReply::Done,
        StopReply::Done,
        saved(SaveResult::Saved),
        StopReply::Done,
        StopReply::Done,
        StopReply::Done,
        StopReply::Done,
        StopReply::Done,
    ] {
        if let Some(progress) = shutdown.progress() {
            told.push((progress.stage, progress.message, progress.progress));
        }
        assert!(session.is_stopping);
        shutdown.step(&mut session, reply);
        passed.push(shutdown.stage);
    }
    assert_eq!(
        passed,
        vec![
            StopStage::TellStopping,
            StopStage::StopStreams,
            StopStage::TellTranscribing,
            StopStage::AwaitTask,
            StopStage::RemoveListener,
            StopStage::TellUnloading,
            StopStage::AskProvider,
            StopStage::UnloadModel(SpeechEngine::Parakeet),
            StopStage::ReportMeeting,
            StopStage::TellFinalizing,
            StopStage::SaveRecording,
            StopStage::StopDiarization,
            StopStage::TellComplete,
            StopStage::TellStopped,
            StopStage::UpdateTray,
            StopStage::NotifyMain,
            StopStage::Finished(StopOutcome::Completed),
        ]
    );
    assert_eq!(
        told,
        vec![
            ("stopping_audio", "Stopping audio capture...", 20),
            ("processing_transcripts", "Processing remaining transcript chunks...", 40),
            ("unloading_model", "Unloading speech recognition model...", 70),
            ("finalizing", "Finalizing recording and cleaning up resources...", 90),
            ("complete", "Recording stopped successfully", 100),
        ]
    );
    assert!(!session.is_recording && !session.is_stopping);
    assert_eq!(session.manager, None);
    assert_eq!(session.transcription_task, None);
    assert_eq!(session.transcript_listener, None);
    let notice = shutdown.notice();
    assert_eq!(
        notice.message,
        "Recording stopped - frontend will save after all transcripts received"
    );
    assert!(notice.call_api);
    assert_eq!(notice.folder_path, text("/meetings/Standup"));
    assert_eq!(notice.meeting_name, text("Standup"));
    assert_eq!(notice.audio_save_error, None);
}

#[test]
fn handles_move_into_the_shutdown_and_out_again() {
    let mut session = recording();
    let mut shutdown = stop_recording_from_compact(&mut session);
    assert!(shutdown.restore_main);
    shutdown.step(&mut session, StopReply::Done);
    shutdown.step(&mut session, StopReply::Done);
    assert_eq!((shutdown.manager, session.manager), (Some("manager"), None));
    shutdown.step(&mut session, StopReply::Streams(Ok(())));
    shutdown.step(&mut session, StopReply::Done);
    assert_eq!((shutdown.task, session.transcription_task), (Some("task"), None));
    shutdown.step(&mut session, StopReply::Done);
    assert_eq!(shutdown.stage, StopStage::AwaitTask);
    assert_eq!((shutdown.task, session.transcript_listener), (Some("task"), Some(17)));
    shutdown.step(&mut session, StopReply::TaskEnded(TaskEnd::Completed));
    assert_eq!(shutdown.stage, StopStage::RemoveListener);
    assert_eq!((shutdown.listener, session.transcript_listener), (Some(17), None));
    assert_eq!(shutdown.task, None);
    shutdown.step(&mut session, StopReply::Done);
    assert_eq!(shutdown.listener, None);
}

#[test]
fn failures_do_not_keep_a_shutdown_from_its_end() {
    let mut session = recording();
    let mut shutdown = stop_recording(&mut session);
    for reply in [
        StopReply::Done,
        StopReply::Done,
        StopReply::Streams(Err("stuck".to_string())),
        StopReply::Done,
        StopReply::TaskEnded(TaskEnd::Failed),
        StopReply::Done,
        StopReply::Done,
        StopReply::Provider(None),
    ] {
        shutdown.step(&mut session, reply);
    }
    assert_eq!(shutdown.stage, StopStage::UnloadModel(SpeechEngine::Whisper));
    for reply in [
        StopReply::Done,
        StopReply::Done,
        StopReply::Done,
        StopReply::Saved { result: SaveResult::TimedOut, folder: None, name: text("Standup") },
        StopReply::Done,
    ] {
        shutdown.step(&mut session, reply);
    }
    assert!(!session.is_recording && session.is_stopping);
    assert_eq!(
        shutdown.progress().unwrap().message,
        "Recording stopped, but audio finalization reported an error"
    );
    let notice = shutdown.notice();
    assert_eq!((notice.folder_path, notice.meeting_name), (None, None));
    assert_eq!(
        notice.audio_save_error,
        text("Failed to stop audio streams cleanly: stuck; Audio save timed out after 5 minutes")
    );
}

#[test]
fn save_errors_are_told_one_by_one() {
    let error = |streams: Option<&str>, save: SaveResult| {
        let mut session = recording();
        let mut shutdown = stop_recording(&mut session);
        shutdown.stream_error = streams.map(|s| s.to_string());
        shutdown.save = save;
        shutdown.audio_save_error()
    };
    assert_eq!(error(None, SaveResult::Saved), None);
    assert_eq!(error(None, SaveResult::Failed("disk full".to_string())), text("disk full"));
    assert_eq!(
        error(None, SaveResult::NoManager),
        text("Recording manager was unavailable during save")
    );
    assert_eq!(
        error(Some("stuck"), SaveResult::Saved),
        text("Failed to stop audio streams cleanly: stuck")
    );
}

#[test]
fn a_shutdown_without_handles_passes_their_stages_over() {
    let mut session = Session::new();
    session.is_recording = true;
    let mut shutdown = stop_recording(&mut session);
    let mut passed = Vec::new();
    for reply in [
        StopReply::Done,
        StopReply::Done,
        StopReply::Done,
        StopReply::Done,
        StopReply::Provider(text("whisper")),
        StopReply::Done,
        StopReply::Done,
    ] {
        shutdown.step(&mut session, reply);
        passed.push(shutdown.stage);
    }
    assert_eq!(
        passed,
        vec![
            StopStage::TellStopping,
            StopStage::TellTranscribing,
            StopStage::TellUnloading,
            StopStage::AskProvider,
            StopStage::UnloadModel(SpeechEngine::Whisper),
            StopStage::TellFinalizing,
            StopStage::StopDiarization,
        ]
    );
    assert_eq!(
        shutdown.audio_save_error(),
        text("Recording manager was unavailable during save")
    );
}

#[test]
fn replies_that_do_not_fit_change_nothing() {
    let mut session = recording();
    let mut shutdown = stop_recording(&mut session);
    shutdown.step(&mut session, StopReply::TaskEnded(TaskEnd::Completed));
    shutdown.step(&mut session, saved(SaveResult::Saved));
    assert_eq!(shutdown.stage, StopStage::CloseCompactWindow);
    assert!(session.is_recording && session.manager.is_some());
}

#[test]
fn only_one_stop_goes_through() {
    let mut idle = Session::new();
    assert_eq!(
        stop_recording(&mut idle).stage,
        StopStage::Finished(StopOutcome::AlreadyStopped)
    );
    assert!(stop_after_fatal_error(&mut idle).is_none());
    assert!(!idle.is_stopping);
    let mut session = recording();
    let first = stop_after_fatal_error(&mut session).unwrap();
    assert!(!first.restore_main);
    assert_eq!(first.stage, StopStage::CloseCompactWindow);
    assert_eq!(
        stop_recording(&mut session).stage,
        StopStage::Finished(StopOutcome::AlreadyStopping)
    );
    assert!(session.is_stopping);
}

#[test]
fn waiting_is_told_in_seconds() {
    assert_eq!(
        waiting_progress(0),
        WaitingProgress {
            stage: "processing_transcripts",
            message: "Processing transcripts... (0s elapsed)".to_string(),
            progress: 40,
            detailed: true,
            elapsed_seconds: 0,
        }
    );
    let told = waiting_progress(125);
    assert_eq!(told.message, "Processing transcripts... (125s elapsed)");
    assert_eq!(told.elapsed_seconds, 125);
}

#[test]
fn events_go_to_every_window_but_one_to_the_main_window() {
    let event = |stage: StopStage| stage.event().map(|e| (e.name, e.window));
    for stage in [
        StopStage::TellStopping,
        StopStage::TellTranscribing,
        StopStage::AwaitTask,
        StopStage::TellUnloading,
        StopStage::TellFinalizing,
        StopStage::TellComplete,
    ] {
        assert_eq!(event(stage), Some(("recording-shutdown-progress", None)));
    }
    assert_eq!(event(StopStage::TellStopped), Some(("recording-stopped", None)));
    assert_eq!(
        event(StopStage::NotifyMain),
        Some(("recording-stop-complete", Some("main")))
    );
    assert_eq!(event(StopStage::SaveRecording), None);
    assert_eq!(fatal_error_event(), "recording-error");

    let mut session = Session::new();
    let mut startup = start_recording(&session, Platform::Linux);
    assert_eq!(startup.event(), None);
    startup.step(&mut session, StartReply::Model(Err("downloading".to_string())));
    assert_eq!(startup.event(), Some("transcription-error"));
    startup.stage = StartStage::TellStarted;
    assert_eq!(startup.event(), Some("recording-started"));
}
