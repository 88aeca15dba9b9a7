use meetily_audio::clock::{effective_meeting_name, LocalTime};
use meetily_audio::device::{AudioDevice, DeviceType};
use meetily_audio::session::{
    attempt_device_reconnect, can_enter_compact_mode, compact_mode_allowed,
    device_reconnect_attempted, get_active_audio_output, get_meeting_folder_path,
    get_reconnection_status, get_recording_meeting_name, get_recording_state,
    get_transcript_history, get_transcription_status, is_recording, is_recording_active,
    is_recording_paused, pause_recording, poll_audio_device_events, resume_recording,
    set_microphone_muted, set_system_audio_muted, CommandError, Control, ControlStage, DeviceEvent,
    DeviceEventResponse, DeviceMonitorType, ManagerStatus, MutedSource, RecordingArgs,
    RecordingSession, Reconnection,
};
use meetily_audio::transcript::{
    classify_device_type, classify_lowered, keeper_of_segment, meeting_report, segment_of_update, MeetingFacts,
    ModelChoice, SegmentKeeper, TranscriptUpdate,
};

type Session = RecordingSession<u8, u16, u32>;

fn recording() -> Session {
    let mut session = Session::new();
    session.is_recording = true;
    session.manager = Some(1);
    session
}

#[test]
fn compact_mode_requires_an_active_non_stopping_recording() {
    assert!(compact_mode_allowed(true, false));
    assert!(!compact_mode_allowed(false, false));
    assert!(!compact_mode_allowed(true, true));
    assert!(!compact_mode_allowed(false, true));
}

#[test]
fn sessions_tell_whether_they_record() {
    let mut session = Session::new();
    assert!(!is_recording(&session) && !is_recording_active(&session));
    assert!(!can_enter_compact_mode(&session));
    assert!(!get_transcription_status(&session).is_processing);
    session.is_recording = true;
    assert!(is_recording(&session) && is_recording_active(&session));
    assert!(can_enter_compact_mode(&session));
    let status = get_transcription_status(&session);
    assert!(status.is_processing);
    assert_eq!((status.chunks_in_queue, status.last_activity_ms), (0, 0));
    session.is_stopping = true;
    assert!(!can_enter_compact_mode(&session));
    assert_eq!(RecordingArgs { save_path: "x".to_string() }.save_path, "x");
}

#[test]
fn pausing_goes_through_the_manager_the_event_and_the_tray() {
    let stage = pause_recording(&recording());
    assert_eq!(stage, ControlStage::Apply(Control::Pause));
    let stage = stage.step(Ok(()));
    assert_eq!(stage, ControlStage::Announce(Control::Pause));
    assert_eq!(Control::Pause.event(), ("recording-paused", "Recording paused"));
    let stage = stage.step(Ok(()));
    assert_eq!(stage, ControlStage::UpdateTray);
    assert_eq!(stage.step(Ok(())), ControlStage::Done);
}

#[test]
fn resuming_can_fail_at_the_manager_or_the_event() {
    let fail = |why: &str| Err(why.to_string());
    let stage = resume_recording(&recording()).step(fail("busy"));
    assert_eq!(stage, ControlStage::Failed(CommandError::Manager("busy".to_string())));
    let stage = resume_recording(&recording()).step(Ok(())).step(fail("closed"));
    assert_eq!(stage, ControlStage::Failed(CommandError::Event("closed".to_string())));
    assert_eq!(Control::Resume.event(), ("recording-resumed", "Recording resumed"));
    assert_eq!(CommandError::Event("closed".to_string()).message(), "closed");
    assert_eq!(CommandError::Manager("busy".to_string()).message(), "busy");
}

#[test]
fn commands_need_a_recording_with_a_manager() {
    let idle = Session::new();
    let mut lost = recording();
    lost.manager = None;
    assert_eq!(pause_recording(&idle), ControlStage::Failed(CommandError::NotRecording));
    assert_eq!(resume_recording(&lost), ControlStage::Failed(CommandError::NoManager));
    assert_eq!(set_microphone_muted(&idle, true), Err(CommandError::NotRecording));
    assert_eq!(set_system_audio_muted(&lost, true), Err(CommandError::NoManager));
    assert_eq!(CommandError::NotRecording.message(), "No recording is currently active");
    assert_eq!(CommandError::NoManager.message(), "No recording manager found");
}

#[test]
fn sources_are_muted_one_by_one() {
    let change = set_microphone_muted(&recording(), true).unwrap();
    assert_eq!((change.source, change.muted), (MutedSource::Microphone, true));
    assert_eq!(change.event(), "microphone-mute-changed");
    let change = set_system_audio_muted(&recording(), false).unwrap();
    assert_eq!((change.source, change.muted), (MutedSource::SystemAudio, false));
    assert_eq!(change.event(), "system-audio-mute-changed");
}

#[test]
fn the_state_of_a_recording_is_what_its_manager_says() {
    let status = ManagerStatus {
        is_paused: true,
        is_microphone_muted: false,
        is_system_audio_muted: true,
        is_active: true,
        recording_duration: Some(12.5),
        active_duration: Some(10.0),
        total_pause_duration: 2.5,
        current_pause_duration: None,
    };
    let state = get_recording_state(true, Some(status), 0.0);
    assert!(state.is_recording);
    assert_eq!(state.status, status);
    let state = get_recording_state(false, None, 0.0);
    assert!(!state.is_recording && !state.status.is_active);
    assert_eq!(state.status.total_pause_duration, 0.0);
    assert_eq!(state.status.recording_duration, None);
    assert!(is_recording_paused(Some(true)));
    assert!(!is_recording_paused(Some(false)));
    assert!(!is_recording_paused(None));
}

#[test]
fn queries_without_a_manager_find_nothing() {
    assert_eq!(get_meeting_folder_path(None), Ok(None));
    assert_eq!(
        get_meeting_folder_path(Some(Some("/m".to_string()))),
        Ok(Some("/m".to_string()))
    );
    assert_eq!(get_recording_meeting_name(None), Ok(None));
    assert_eq!(
        get_recording_meeting_name(Some(Some("Standup".to_string()))),
        Ok(Some("Standup".to_string()))
    );
    assert_eq!(get_transcript_history::<u8>(None), Ok(vec![]));
    assert_eq!(get_transcript_history(Some(vec![1, 2])), Ok(vec![1, 2]));
    assert_eq!(get_active_audio_output(Ok(3)), Ok(3));
    assert_eq!(
        get_active_audio_output::<u8>(Err("gone".to_string())),
        Err("Failed to get audio output info: gone".to_string())
    );
}

#[test]
fn device_events_are_told_by_name() {
    let event = DeviceEvent::DeviceDisconnected {
        device_name: "AirPods".to_string(),
        device_type: DeviceMonitorType::Microphone,
    };
    assert_eq!(
        poll_audio_device_events(Some(Some(event))),
        Ok(Some(DeviceEventResponse::DeviceDisconnected {
            device_name: "AirPods".to_string(),
            device_type: "Microphone".to_string(),
        }))
    );
    let event = DeviceEvent::DeviceReconnected {
        device_name: "Dock".to_string(),
        device_type: DeviceMonitorType::SystemAudio,
    };
    assert_eq!(
        DeviceEventResponse::from(event),
        DeviceEventResponse::DeviceReconnected {
            device_name: "Dock".to_string(),
            device_type: "SystemAudio".to_string(),
        }
    );
    assert_eq!(
        DeviceEventResponse::from(DeviceEvent::DeviceListChanged),
        DeviceEventResponse::DeviceListChanged
    );
    assert_eq!(poll_audio_device_events(Some(None)), Ok(None));
    assert_eq!(poll_audio_device_events(None), Ok(None));
    for monitor_type in [DeviceMonitorType::Microphone, DeviceMonitorType::SystemAudio] {
        assert_eq!(DeviceMonitorType::from_name(monitor_type.name()), Some(monitor_type));
    }
}

#[test]
fn reconnections_are_told() {
    let gone = AudioDevice::new("AirPods".to_string(), DeviceType::Input);
    let status = get_reconnection_status(Some(Reconnection {
        is_reconnecting: true,
        disconnected: Some((gone, DeviceMonitorType::Microphone)),
    }))
    .unwrap();
    assert!(status.is_reconnecting);
    let device = status.disconnected_device.unwrap();
    assert_eq!(device.name, "AirPods");
    assert_eq!(device.device_type, "Microphone");
    let status = get_reconnection_status(None).unwrap();
    assert!(!status.is_reconnecting && status.disconnected_device.is_none());
}

#[test]
fn reconnecting_takes_the_manager_and_puts_it_back() {
    let mut session = recording();
    let (manager, monitor_type) = attempt_device_reconnect(&mut session, "SystemAudio").unwrap();
    assert_eq!(monitor_type, DeviceMonitorType::SystemAudio);
    assert!(session.manager.is_none() && session.is_recording);
    assert_eq!(
        attempt_device_reconnect(&mut session, "Microphone"),
        Err("Recording not active".to_string())
    );
    let result = device_reconnect_attempted(&mut session, manager, Err("gone".to_string()));
    assert_eq!(result, Err("gone".to_string()));
    assert_eq!(session.manager, Some(1));
    assert_eq!(
        attempt_device_reconnect(&mut session, "microphone"),
        Err("Invalid device type: microphone".to_string())
    );
    assert_eq!(session.manager, Some(1));
}

fn update(source: &str) -> TranscriptUpdate<f64, f32> {
    TranscriptUpdate {
        text: "hello".to_string(),
        timestamp: "10:00".to_string(),
        source: source.to_string(),
        sequence_id: 1207,
        audio_start_time: 1.0,
        audio_end_time: 2.5,
        duration: 1.5,
        confidence: 0.9,
    }
}

#[test]
fn segments_keep_the_speaker_unless_it_is_blank() {
    let segment = segment_of_update(update("Guest"));
    assert_eq!(segment.id, "seg_1207");
    assert_eq!(segment.text, "hello");
    assert_eq!(segment.display_time, "10:00");
    assert_eq!(segment.sequence_id, 1207);
    assert_eq!(
        (segment.audio_start_time, segment.audio_end_time, segment.duration),
        (1.0, 2.5, 1.5)
    );
    assert_eq!(segment.confidence, 0.9);
    assert_eq!(segment.speaker, Some("Guest".to_string()));
    assert_eq!(segment_of_update(update(" You ")).speaker, Some(" You ".to_string()));
    assert_eq!(segment_of_update(update("")).speaker, None);
    assert_eq!(segment_of_update(update(" \t\u{2003}")).speaker, None);
    let mut last = update("x");
    last.sequence_id = u64::MAX;
    assert_eq!(segment_of_update(last).id, "seg_18446744073709551615");
    let mut first = update("x");
    first.sequence_id = 0;
    assert_eq!(segment_of_update(first).id, "seg_0");
}

#[test]
fn late_segments_are_kept_without_the_manager() {
    assert_eq!(keeper_of_segment(true), SegmentKeeper::Manager);
    assert_eq!(keeper_of_segment(false), SegmentKeeper::Transcript);
}

#[test]
fn devices_are_classified_by_their_names() {
    for name in [
        "Bluetooth Headset",
        "Ann's AirPods Pro",
        "BEATS Studio",
        "Headphones",
        "BT 4.2",
        "Wireless",
    ] {
        assert_eq!(classify_device_type(name), "Bluetooth", "{}", name);
    }
    for name in ["Built-in Microphone", "USB Audio", "Subtle", "BT"] {
        assert_eq!(classify_device_type(name), "Wired", "{}", name);
    }
    assert_eq!(classify_lowered("airpods"), "Bluetooth");
    assert_eq!(classify_lowered("AirPods"), "Wired");
}

#[test]
fn meeting_reports_tell_no_names() {
    let facts = MeetingFacts {
        total_duration: Some(60.0),
        active_duration: None,
        pause_duration: 5.0,
        microphone_name: Some("Ann's AirPods".to_string()),
        system_name: None,
        chunks_processed: 7,
        transcript_segments: 3,
        had_fatal_error: true,
    };
    let chosen = ModelChoice { provider: "parakeet".to_string(), model: "v3".to_string() };
    let report = meeting_report(facts, Some(chosen), None, 0.0);
    assert_eq!(report.transcription.provider, "parakeet");
    assert_eq!(report.transcription.model, "v3");
    assert_eq!(report.summary.provider, "unknown");
    assert_eq!(report.summary.model, "unknown");
    assert_eq!(report.total_duration, Some(60.0));
    assert_eq!(report.active_duration, 0.0);
    assert_eq!(report.pause_duration, 5.0);
    assert_eq!(report.microphone_type, "Bluetooth");
    assert_eq!(report.system_audio_type, "Unknown");
    assert_eq!((report.chunks_processed, report.transcript_segments), (7, 3));
    assert!(report.had_fatal_error);
}

#[test]
fn meetings_are_named_after_the_time() {
    let start = LocalTime::new(2025, 10, 3, 8, 25, 23).unwrap();
    assert_eq!(start.timestamp(), "2025-10-03_08-25-23");
    assert_eq!(effective_meeting_name(None, &start), "Meeting 2025-10-03_08-25-23");
    assert_eq!(effective_meeting_name(Some("Standup"), &start), "Standup");
    assert_eq!(effective_meeting_name(Some(""), &start), "");
    let early = LocalTime::new(7, 1, 2, 0, 0, 0).unwrap();
    assert_eq!(early.timestamp(), "0007-01-02_00-00-00");
    let late = LocalTime::new(12345, 12, 31, 23, 59, 59).unwrap();
    assert_eq!(late.timestamp(), "+12345-12-31_23-59-59");
    let before = LocalTime::new(-5, 12, 31, 23, 59, 59).unwrap();
    assert_eq!(before.timestamp(), "-0005-12-31_23-59-59");
}

#[test]
fn times_that_do_not_exist_are_refused() {
    assert!(LocalTime::new(2024, 2, 29, 0, 0, 0).is_some());
    assert!(LocalTime::new(2023, 2, 29, 0, 0, 0).is_none());
    assert!(LocalTime::new(1900, 2, 29, 0, 0, 0).is_none());
    assert!(LocalTime::new(2000, 2, 29, 0, 0, 0).is_some());
    assert!(LocalTime::new(-4, 2, 29, 0, 0, 0).is_some());
    assert!(LocalTime::new(-100, 2, 29, 0, 0, 0).is_none());
    assert!(LocalTime::new(-400, 2, 29, 0, 0, 0).is_some());
    assert!(LocalTime::new(262142, 12, 31, 23, 59, 59).is_some());
    assert!(LocalTime::new(262143, 1, 1, 0, 0, 0).is_none());
    assert!(LocalTime::new(-262143, 1, 1, 0, 0, 0).is_some());
    assert!(LocalTime::new(-262144, 12, 31, 0, 0, 0).is_none());
    assert_eq!(
        LocalTime::new(-262143, 2, 28, 0, 0, 0).unwrap().timestamp(),
        "-262143-02-28_00-00-00"
    );
    assert!(LocalTime::new(2025, 4, 31, 0, 0, 0).is_none());
    assert!(LocalTime::new(2025, 0, 1, 0, 0, 0).is_none());
    assert!(LocalTime::new(2025, 1, 1, 24, 0, 0).is_none());
    assert!(LocalTime::new(2025, 1, 1, 0, 60, 0).is_none());
    assert!(LocalTime::new(2025, 1, 1, 0, 0, 60).is_none());
    assert!(LocalTime::new(300000, 1, 1, 0, 0, 0).is_none());
}

#[test]
fn the_clock_gives_a_time_of_this_age() {
    let now = LocalTime::now().timestamp();
    assert_eq!(now.len(), 19);
    let year: u32 = now[..4].parse().unwrap();
    assert!((2024..3000).contains(&year));
}
