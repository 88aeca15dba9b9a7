use meetily_audio::pulse::{
    build_labels, default_sink_label, default_source_label, list_sinks, list_sources,
    resolve_monitor_source, resolve_source, resolve_stored, SinkInfo, SourceInfo,
};
use meetily_audio::pulse_capture::{
    sample_bytes, CaptureError, CaptureEvent, CaptureFormat, CaptureSample, CaptureStage,
    CaptureTarget, Opened, PulseCapture,
};
use meetily_audio::pulse_wait::{
    after_pump, poll_connection, poll_operation, pump, AfterPump, ContextState, Iteration,
    OperationState, Poll, WaitError, Waiting,
};

fn text(s: &str) -> Option<String> {
    Some(s.to_string())
}

fn sink(name: &str, description: &str, monitor: &str) -> SinkInfo {
    SinkInfo {
        name: text(name),
        description: text(description),
        monitor_source_name: text(monitor),
    }
}

fn source(name: &str, description: &str) -> SourceInfo {
    SourceInfo { name: text(name), description: text(description), monitor_of_sink: None }
}

#[test]
fn sinks_without_a_monitor_are_left_out() {
    let reports = vec![
        SinkInfo { name: text("a"), description: text("A"), monitor_source_name: None },
        sink("b", "B", ""),
        SinkInfo { name: None, description: None, monitor_source_name: text("c.monitor") },
    ];
    let sinks = list_sinks(&reports);
    assert_eq!(sinks.len(), 1);
    assert_eq!(sinks[0].description, "Unknown output");
    assert_eq!(sinks[0].sink_name, "");
    assert_eq!(sinks[0].monitor_source_name, "c.monitor");
    assert_eq!(sinks[0].label, "Unknown output");
}

#[test]
fn shared_descriptions_are_told_apart_by_the_monitor() {
    let reports = vec![
        sink("x", "HDMI", "x.monitor"),
        sink("y", "HDMI", "y.monitor"),
        sink("z", "Speakers", "z.monitor"),
    ];
    let labels: Vec<String> = list_sinks(&reports).into_iter().map(|s| s.label).collect();
    assert_eq!(labels, vec!["HDMI [x.monitor]", "HDMI [y.monitor]", "Speakers"]);
}

#[test]
fn labels_and_bare_descriptions_resolve() {
    let reports = vec![sink("x", "HDMI", "x.monitor"), sink("y", "HDMI", "y.monitor")];
    assert_eq!(resolve_monitor_source(&reports, "HDMI [y.monitor]").unwrap(), "y.monitor");
    assert_eq!(resolve_monitor_source(&reports, "HDMI").unwrap(), "x.monitor");
    let error = resolve_monitor_source(&reports, "Dock").unwrap_err();
    assert_eq!(error.message(), "No PulseAudio sink found matching 'Dock'");
}

#[test]
fn a_label_counts_before_a_description() {
    let entries = [
        ("Dock [a]".to_string(), "Dock".to_string(), "first".to_string()),
        ("Dock".to_string(), "Other".to_string(), "second".to_string()),
    ];
    assert_eq!(resolve_stored(&entries, "Dock", "sink").unwrap(), "second");
}

#[test]
fn only_inputs_are_listed_as_sources() {
    let reports = vec![
        SourceInfo { name: text("m"), description: text("Monitor"), monitor_of_sink: Some(3) },
        SourceInfo { name: None, description: text("Nameless"), monitor_of_sink: None },
        SourceInfo { name: text(""), description: text("Empty"), monitor_of_sink: None },
        SourceInfo { name: text("mic"), description: None, monitor_of_sink: None },
    ];
    let sources = list_sources(&reports);
    assert_eq!(sources.len(), 1);
    assert_eq!(sources[0].source_name, "mic");
    assert_eq!(sources[0].description, "mic");
    assert_eq!(sources[0].label, "mic");
}

#[test]
fn sources_resolve_by_label() {
    let reports = vec![source("a", "Mic"), source("b", "Mic")];
    assert_eq!(resolve_source(&reports, "Mic [b]").unwrap(), "b");
    assert_eq!(resolve_source(&reports, "Mic").unwrap(), "a");
    assert_eq!(
        resolve_source(&reports, "Line").unwrap_err().message(),
        "No PulseAudio source found matching 'Line'"
    );
}

#[test]
fn defaults_of_the_server_are_given_by_label() {
    let sinks = vec![sink("x", "HDMI", "x.monitor"), sink("y", "HDMI", "y.monitor")];
    assert_eq!(default_sink_label(Some("y"), &sinks), text("HDMI [y.monitor]"));
    assert_eq!(default_sink_label(Some("z"), &sinks), None);
    assert_eq!(default_sink_label(Some(""), &sinks), None);
    assert_eq!(default_sink_label(None, &sinks), None);
    let label = default_sink_label(Some("y"), &sinks).unwrap();
    assert_eq!(resolve_monitor_source(&sinks, &label).unwrap(), "y.monitor");

    let sources = vec![source("a", "Mic"), source("b", "Line")];
    assert_eq!(default_source_label(Some("b"), &sources), text("Line"));
    assert_eq!(default_source_label(Some("c"), &sources), None);
    assert_eq!(default_source_label(None, &sources), None);
    assert_eq!(resolve_source(&sources, "Line").unwrap(), "b");
}

#[test]
fn look_alike_labels_are_possible_but_need_a_bracket() {
    let entries: Vec<(String, String)> = [("X [n1]", "n3"), ("X", "n1"), ("X", "n2")]
        .iter()
        .map(|(d, n)| (d.to_string(), n.to_string()))
        .collect();
    assert_eq!(build_labels(&entries), vec!["X [n1]", "X [n1]", "X [n2]"]);
}

#[test]
fn waits_are_bounded() {
    assert_eq!(poll_operation(OperationState::Done, 9000), Poll::Ready);
    assert_eq!(
        poll_operation(OperationState::Cancelled, 0),
        Poll::GiveUp(WaitError::Cancelled)
    );
    assert_eq!(poll_operation(OperationState::Running, 4999), Poll::Pump);
    assert_eq!(
        poll_operation(OperationState::Running, 5000),
        Poll::GiveUp(WaitError::OperationTimedOut)
    );
    assert_eq!(poll_connection(ContextState::Ready, 5000), Poll::Ready);
    assert_eq!(
        poll_connection(ContextState::Terminated, 0),
        Poll::GiveUp(WaitError::ConnectionFailed)
    );
    assert_eq!(poll_connection(ContextState::Authorizing, 10), Poll::Pump);
    assert_eq!(
        poll_connection(ContextState::Authorizing, 5000),
        Poll::GiveUp(WaitError::ConnectionTimedOut(ContextState::Authorizing))
    );
}

#[test]
fn idle_main_loops_sleep_and_failed_ones_end_the_wait() {
    assert_eq!(pump(Iteration::Dispatched(3), Waiting::Operation), Ok(3));
    assert_eq!(
        pump(Iteration::Quit, Waiting::Connection),
        Err(WaitError::LoopFailed(Waiting::Connection))
    );
    assert_eq!(after_pump(Iteration::Dispatched(0), Waiting::Connection), AfterPump::Sleep);
    assert_eq!(after_pump(Iteration::Dispatched(1), Waiting::Connection), AfterPump::LookAgain);
    assert_eq!(
        after_pump(Iteration::Failed, Waiting::Operation),
        AfterPump::GiveUp(WaitError::LoopFailed(Waiting::Operation))
    );
}

#[test]
fn wait_errors_have_messages() {
    assert_eq!(
        WaitError::LoopFailed(Waiting::Connection).message(),
        "PulseAudio mainloop iteration failed while connecting"
    );
    assert_eq!(
        WaitError::LoopFailed(Waiting::Operation).message(),
        "PulseAudio mainloop iteration failed while waiting for an operation to complete"
    );
    assert_eq!(WaitError::Cancelled.message(), "PulseAudio operation was cancelled");
    assert_eq!(
        WaitError::OperationTimedOut.message(),
        format!(
            "PulseAudio operation did not complete within {:?}",
            std::time::Duration::from_secs(5)
        )
    );
    assert_eq!(
        WaitError::ConnectionFailed.message(),
        "PulseAudio/PipeWire context connection failed or was terminated"
    );
    assert_eq!(
        WaitError::ConnectionTimedOut(ContextState::SettingName).message(),
        "Timed out after 5s waiting for the PulseAudio/PipeWire server to become ready (last state: SettingName)"
    );
}

#[test]
fn capture_formats_hold_half_a_second() {
    let stereo = CaptureTarget::System.format();
    assert_eq!(stereo.channels, 2);
    assert_eq!(stereo.rate, 48000);
    assert_eq!(stereo.maxlength, 192000);
    assert_eq!(stereo.fragsize, 8192);
    assert_eq!(stereo.tlength, u32::MAX);
    assert_eq!(stereo.prebuf, u32::MAX);
    assert_eq!(stereo.minreq, u32::MAX);
    let mono = CaptureTarget::Microphone.format();
    assert_eq!(mono, CaptureFormat::with_channels(1));
    assert_eq!(mono.maxlength, 96000);
    assert_eq!(mono.fragsize, 4096);
    assert_eq!(CaptureTarget::System.sample(), CaptureSample::Float32NativeEndian);
    assert_eq!(CaptureTarget::System.stream_label(), "System Audio");
    assert_eq!(CaptureTarget::Microphone.stream_label(), "Microphone");
}

#[test]
fn captures_know_their_channels() {
    let capture = PulseCapture::new_system("x.monitor", Opened::Stream("s"), 7).unwrap();
    assert_eq!(capture.channels(), 2);
    assert_eq!(capture.sample_rate(), 48000);
    assert_eq!(*capture.stop_handle(), 7);
    assert_eq!(*capture.stream(), "s");
    assert_eq!(capture.run().read_bytes, 8192);
    let capture = PulseCapture::new_microphone("mic", Opened::Stream("s"), 7).unwrap();
    assert_eq!(capture.channels(), 1);
    assert_eq!(capture.run().read_bytes, 4096);
}

#[test]
fn captures_say_why_they_could_not_be_opened() {
    let error = PulseCapture::<(), ()>::new_system(
        "x.monitor",
        Opened::Refused("Access denied".to_string()),
        (),
    )
    .unwrap_err();
    assert_eq!(
        error.message(),
        "Failed to open PulseAudio record stream on 'x.monitor': Access denied"
    );
    let error = PulseCapture::<(), ()>::new_microphone("mic", Opened::InvalidFormat, ()).unwrap_err();
    assert_eq!(error, CaptureError::InvalidFormat);
    assert_eq!(error.message(), "Invalid PulseAudio sample spec");
}

#[test]
fn a_late_read_is_not_delivered_after_a_stop() {
    let capture = PulseCapture::new_system("x", Opened::Stream(()), ()).unwrap();
    let mut reading = capture.run();
    reading.step(CaptureEvent::StopFlag(false));
    assert_eq!(reading.stage, CaptureStage::Reading);
    reading.step(CaptureEvent::ReadSucceeded);
    assert_eq!(reading.stage, CaptureStage::AfterRead);
    reading.step(CaptureEvent::StopFlag(false));
    assert_eq!(reading.stage, CaptureStage::Delivering);
    reading.step(CaptureEvent::Delivered);
    reading.step(CaptureEvent::StopFlag(false));
    reading.step(CaptureEvent::ReadSucceeded);
    reading.step(CaptureEvent::StopFlag(true));
    assert_eq!(reading.stage, CaptureStage::Finished);
    reading.step(CaptureEvent::StopFlag(false));
    assert_eq!(reading.stage, CaptureStage::Finished);
}

#[test]
fn a_failed_read_ends_the_loop() {
    let capture = PulseCapture::new_system("x", Opened::Stream(()), ()).unwrap();
    let mut reading = capture.run();
    reading.step(CaptureEvent::Delivered);
    assert_eq!(reading.stage, CaptureStage::BeforeRead);
    reading.step(CaptureEvent::StopFlag(false));
    reading.step(CaptureEvent::ReadFailed);
    assert_eq!(reading.stage, CaptureStage::Finished);
}

#[test]
fn chunks_are_cut_into_samples() {
    assert_eq!(
        sample_bytes(&[1, 2, 3, 4, 5, 6, 7, 8, 9]),
        vec![[1, 2, 3, 4], [5, 6, 7, 8]]
    );
    assert!(sample_bytes(&[1, 2, 3]).is_empty());
    let chunk: Vec<u8> = [0.5f32, -1.0]
        .iter()
        .flat_map(|s| s.to_ne_bytes())
        .collect();
    let samples: Vec<f32> = sample_bytes(&chunk).into_iter().map(f32::from_ne_bytes).collect();
    assert_eq!(samples, vec![0.5, -1.0]);
}
