use meetily_audio::core_audio::{AudioError, TapAction, TapEvent, TapReader};
use meetily_audio::creation::{CreationReply, CreationStage, StreamCreation, TapError};
use meetily_audio::device::{AudioDevice, DeviceType, Platform};
use meetily_audio::pulse::{SinkInfo, SourceInfo};
use meetily_audio::pulse_capture::CaptureTarget;
use meetily_audio::stream::{
    build_stream, stopped_streams, AudioCaptureBackend, AudioStream, AudioStreamManager,
    CaptureKind, SampleFormat, SampleScale, StartStage, StreamBackend, StreamStop,
};

type Stream = AudioStream<u8, u16, u32>;
type Creation = StreamCreation<u8, u16, u32>;
type Manager = AudioStreamManager<u8, u16, u32>;

const SCK: AudioCaptureBackend = AudioCaptureBackend::ScreenCaptureKit;
const TAP: AudioCaptureBackend = AudioCaptureBackend::CoreAudio;

fn microphone() -> AudioDevice {
    AudioDevice::new("Mic".to_string(), DeviceType::Input)
}

fn speakers() -> AudioDevice {
    AudioDevice::new("Speakers (System Audio)".to_string(), DeviceType::Output)
}

fn sinks() -> Vec<SinkInfo> {
    vec![SinkInfo {
        name: Some("pci".to_string()),
        description: Some("Speakers".to_string()),
        monitor_source_name: Some("pci.monitor".to_string()),
    }]
}

fn sources() -> Vec<SourceInfo> {
    vec![SourceInfo {
        name: Some("usb".to_string()),
        description: Some("Mic".to_string()),
        monitor_of_sink: None,
    }]
}

fn stages(creation: &mut Creation, replies: Vec<CreationReply<u8, u16, u32>>) -> Vec<CreationStage> {
    replies
        .into_iter()
        .map(|reply| {
            creation.step(reply);
            creation.stage
        })
        .collect()
}

#[test]
fn platforms_begin_with_their_own_backend() {
    let first = |platform, kind, backend| {
        Stream::create_with_backend(microphone(), platform, kind, backend).stage
    };
    let system = CaptureKind::System;
    let mic = CaptureKind::Microphone;
    assert_eq!(first(Platform::MacOs, system, TAP), CreationStage::CreateTap);
    assert_eq!(first(Platform::MacOs, system, SCK), CreationStage::OpenHost);
    assert_eq!(first(Platform::MacOs, mic, TAP), CreationStage::OpenHost);
    assert_eq!(first(Platform::Linux, system, SCK), CreationStage::ListSinks);
    assert_eq!(first(Platform::Linux, mic, TAP), CreationStage::ListSources);
    assert_eq!(first(Platform::Windows, system, TAP), CreationStage::OpenHost);
    assert_eq!(
        Stream::create(speakers(), Platform::Linux, system, TAP).stage,
        CreationStage::ListSinks
    );
}

#[test]
fn system_audio_is_recorded_from_the_monitor() {
    let mut creation = Stream::create(speakers(), Platform::Linux, CaptureKind::System, SCK);
    creation.step(CreationReply::Sinks(Ok(sinks())));
    assert_eq!(
        creation.source(),
        Some(("pci.monitor".to_string(), CaptureTarget::System))
    );
    let passed = stages(
        &mut creation,
        vec![CreationReply::Opened(Ok(())), CreationReply::Reading(Ok((4, 5)))],
    );
    assert_eq!(passed, vec![CreationStage::ReadMonitor, CreationStage::Running]);
    assert_eq!(creation.failure_message(), None);
    let stream = creation.into_stream().unwrap();
    assert_eq!(stream.device().name, "Speakers (System Audio)");
    assert_eq!(stream.signal_stop_only(), Some(&4));
    assert!(matches!(
        stream.stop(),
        StreamStop::RaiseAndJoin { should_stop: 4, task: Some(5) }
    ));
}

#[test]
fn system_audio_is_found_by_the_name_that_the_picker_shows() {
    let shown = AudioDevice::new(speakers().to_string(), DeviceType::Output);
    assert_eq!(shown.name, "Speakers (System Audio) (output)");
    let mut creation: Creation = Stream::create(shown, Platform::Linux, CaptureKind::System, SCK);
    creation.step(CreationReply::Sinks(Ok(sinks())));
    assert_eq!(
        creation.source(),
        Some(("pci.monitor".to_string(), CaptureTarget::System))
    );
}

#[test]
fn microphones_are_recorded_from_the_source() {
    let mut creation =
        Stream::create(microphone(), Platform::Linux, CaptureKind::Microphone, SCK);
    creation.step(CreationReply::Sources(Ok(sources())));
    assert_eq!(
        creation.source(),
        Some(("usb".to_string(), CaptureTarget::Microphone))
    );
    let passed = stages(
        &mut creation,
        vec![CreationReply::Opened(Ok(())), CreationReply::Reading(Ok((4, 5)))],
    );
    assert_eq!(passed, vec![CreationStage::ReadSource, CreationStage::Running]);
}

#[test]
fn microphones_fall_back_to_the_host() {
    let create = || Stream::create(microphone(), Platform::Linux, CaptureKind::Microphone, SCK);
    for replies in [
        vec![CreationReply::Sources(Err("no server".to_string()))],
        vec![CreationReply::Sources(Ok(vec![]))],
        vec![
            CreationReply::Sources(Ok(sources())),
            CreationReply::Opened(Err("busy".to_string())),
        ],
        vec![
            CreationReply::Sources(Ok(sources())),
            CreationReply::Opened(Ok(())),
            CreationReply::Reading(Err("no thread".to_string())),
        ],
    ] {
        let mut creation = create();
        let passed = stages(&mut creation, replies);
        assert_eq!(passed.last(), Some(&CreationStage::OpenHost));
        creation.step(CreationReply::Host(Ok(9)));
        let stream = creation.into_stream().unwrap();
        assert_eq!(stream.signal_stop_only(), None);
        assert!(matches!(stream.stop(), StreamStop::PauseAndDrop(9)));
    }
}

#[test]
fn creations_say_why_they_failed() {
    let fail = |device: AudioDevice, platform, kind, replies| {
        let mut creation = Stream::create(device, platform, kind, TAP);
        let passed = stages(&mut creation, replies);
        assert_eq!(passed.last(), Some(&CreationStage::Failed));
        let message = creation.failure_message().unwrap();
        assert!(creation.into_stream().is_none());
        message
    };
    let linux = Platform::Linux;
    let system = CaptureKind::System;
    assert_eq!(
        fail(
            speakers(),
            Platform::MacOs,
            system,
            vec![CreationReply::Tap(Err(TapError::Capture("denied".to_string())))],
        ),
        "Failed to create Core Audio capture: denied"
    );
    assert_eq!(
        fail(
            speakers(),
            Platform::MacOs,
            system,
            vec![CreationReply::Tap(Err(TapError::Stream("denied".to_string())))],
        ),
        "Failed to create Core Audio stream: denied"
    );
    assert_eq!(
        fail(
            speakers(),
            linux,
            system,
            vec![CreationReply::Sinks(Err("no server".to_string()))],
        ),
        "Failed to resolve PulseAudio sink 'Speakers': no server"
    );
    assert_eq!(
        fail(speakers(), linux, system, vec![CreationReply::Sinks(Ok(vec![]))]),
        "Failed to resolve PulseAudio sink 'Speakers': No PulseAudio sink found matching 'Speakers'"
    );
    assert_eq!(
        fail(
            speakers(),
            linux,
            system,
            vec![
                CreationReply::Sinks(Ok(sinks())),
                CreationReply::Opened(Err("busy".to_string())),
            ],
        ),
        "Failed to open PulseAudio record stream: busy"
    );
    assert_eq!(
        fail(
            speakers(),
            linux,
            system,
            vec![
                CreationReply::Sinks(Ok(sinks())),
                CreationReply::Opened(Ok(())),
                CreationReply::Reading(Err("limit".to_string())),
            ],
        ),
        "Failed to spawn audio capture thread: limit"
    );
    assert_eq!(
        fail(
            microphone(),
            Platform::Windows,
            CaptureKind::Microphone,
            vec![CreationReply::Host(Err("gone".to_string()))],
        ),
        "gone"
    );
}

#[test]
fn taps_are_aborted() {
    let mut creation = Stream::create(speakers(), Platform::MacOs, CaptureKind::System, TAP);
    creation.step(CreationReply::Host(Ok(1)));
    assert_eq!(creation.stage, CreationStage::CreateTap);
    creation.step(CreationReply::Tap(Ok(3)));
    let stream = creation.into_stream().unwrap();
    assert_eq!(stream.signal_stop_only(), None);
    assert!(matches!(stream.stop(), StreamStop::Abort(Some(3))));
}

#[test]
fn samples_are_scaled_by_their_format() {
    assert_eq!(build_stream(&SampleFormat::F32), Ok(SampleScale::AsIs));
    assert_eq!(build_stream(&SampleFormat::I16), Ok(SampleScale::DividedBy(32767)));
    assert_eq!(build_stream(&SampleFormat::I32), Ok(SampleScale::DividedBy(2147483647)));
    assert_eq!(build_stream(&SampleFormat::I8), Ok(SampleScale::DividedBy(127)));
    assert_eq!(
        build_stream(&SampleFormat::Other("U16".to_string())),
        Err("Unsupported sample format: U16".to_string())
    );
}

fn stream(device: AudioDevice, id: u8) -> Stream {
    AudioStream::running(device, StreamBackend::Cpal(id))
}

#[test]
fn both_streams_are_started_in_order() {
    let mut manager = Manager::new();
    assert_eq!(manager.stage, StartStage::Idle);
    manager.start_streams(Some(microphone()), Some(speakers()));
    assert!(matches!(manager.stage, StartStage::CreateMicrophone { .. }));
    manager.created(Ok(stream(microphone(), 1)));
    assert!(matches!(manager.stage, StartStage::MarkMicrophone { .. }));
    assert_eq!(manager.active_stream_count(), 1);
    manager.marked();
    assert!(matches!(manager.stage, StartStage::CreateSystem { .. }));
    manager.created(Ok(stream(speakers(), 2)));
    assert!(matches!(manager.stage, StartStage::MarkSystem { .. }));
    manager.marked();
    assert_eq!(manager.stage, StartStage::Started);
    assert_eq!(manager.active_stream_count(), 2);
    assert_eq!(manager.failure(), None);
    let (first, second) = manager.stop_streams();
    assert_eq!(first.unwrap().device().name, "Mic");
    assert_eq!(second.unwrap().device().name, "Speakers (System Audio)");
    assert!(!manager.has_active_streams());
    assert_eq!(manager.active_stream_count(), 0);
}

#[test]
fn a_failed_microphone_ends_the_start() {
    let mut manager = Manager::new();
    manager.start_streams(Some(microphone()), Some(speakers()));
    manager.created(Err("denied".to_string()));
    assert_eq!(manager.failure(), Some("denied".to_string()));
    assert!(!manager.has_active_streams());
}

#[test]
fn failed_system_audio_is_done_without() {
    let mut manager = Manager::new();
    manager.start_streams(Some(microphone()), Some(speakers()));
    manager.created(Ok(stream(microphone(), 1)));
    manager.marked();
    manager.created(Err("denied".to_string()));
    assert_eq!(manager.stage, StartStage::Started);
    assert_eq!(manager.active_stream_count(), 1);
}

#[test]
fn without_any_stream_there_is_no_recording() {
    let mut manager = Manager::new();
    manager.start_streams(None, None);
    assert_eq!(manager.failure(), Some("No audio streams could be created".to_string()));
    manager.start_streams(None, Some(speakers()));
    manager.marked();
    assert!(matches!(manager.stage, StartStage::CreateSystem { .. }));
    manager.created(Err("denied".to_string()));
    assert_eq!(manager.failure(), Some("No audio streams could be created".to_string()));
}

#[test]
fn failures_to_stop_are_listed() {
    let failed = |why: &str| Err(why.to_string());
    assert_eq!(stopped_streams(Ok(()), Ok(())), Ok(()));
    assert_eq!(
        stopped_streams(failed("mic"), Ok(())),
        failed("Failed to stop some streams: [mic]")
    );
    assert_eq!(
        stopped_streams(Ok(()), failed("sys")),
        failed("Failed to stop some streams: [sys]")
    );
    assert_eq!(
        stopped_streams(failed("mic"), failed("sys")),
        failed("Failed to stop some streams: [mic, sys]")
    );
}

#[test]
fn tap_samples_are_handed_on_in_chunks() {
    let mut reader = TapReader::new(48000);
    let mut handed_on: Vec<u32> = Vec::new();
    for sample in 0..2500u32 {
        match reader.step(TapEvent::Sample { sample, rate: 48000 }) {
            TapAction::Wait => {}
            TapAction::Process(chunk) => {
                assert_eq!(chunk.len(), 1024);
                handed_on.extend(chunk);
            }
            other => panic!("unexpected {:?}", other),
        }
    }
    assert!(matches!(reader.step(TapEvent::Ended), TapAction::Leave));
    handed_on.extend(reader.take_remaining().unwrap());
    assert_eq!(handed_on, (0..2500).collect::<Vec<u32>>());
    assert!(reader.take_remaining().is_none());
    assert_eq!(reader.unexpected_end(true), Some(AudioError::ChannelClosed));
    assert_eq!(reader.unexpected_end(false), None);
}

#[test]
fn a_tap_that_stalls_or_changes_its_rate_fails_once() {
    let mut reader = TapReader::new(48000);
    assert!(matches!(
        reader.step(TapEvent::Sample { sample: 1, rate: 44100 }),
        TapAction::Fail(AudioError::SampleRateUnsupported)
    ));
    assert!(matches!(reader.step(TapEvent::Stalled), TapAction::Leave));
    assert_eq!(reader.unexpected_end(true), None);
    assert!(reader.take_remaining().is_none());

    let mut reader: TapReader<u32> = TapReader::new(48000);
    assert!(matches!(
        reader.step(TapEvent::Stalled),
        TapAction::Fail(AudioError::ChannelClosed)
    ));
    assert_eq!(reader.unexpected_end(true), None);
}
