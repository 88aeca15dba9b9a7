use meetily_audio::device::{
    parse_audio_device, AudioDevice, AudioTranscriptionEngine, DeviceControl, DeviceNameError,
    DeviceType, Platform,
};
use meetily_audio::discovery::{
    list_audio_devices, reply_at, trigger_audio_permission, PermissionReply, PermissionStage,
};
use meetily_audio::linux::{
    configure_linux_audio, is_useful_alsa_endpoint, is_useful_lowered, sink_label_of, Microphones,
};
use meetily_audio::lookup::{
    get_device_and_config, Listing, LookupFailure, LookupReply, LookupStage,
};
use meetily_audio::pulse::{
    list_sinks, list_sources, resolve_monitor_source, resolve_source, SinkInfo, SourceInfo,
};

fn input(name: &str) -> AudioDevice {
    AudioDevice::new(name.to_string(), DeviceType::Input)
}

fn output(name: &str) -> AudioDevice {
    AudioDevice::new(name.to_string(), DeviceType::Output)
}

fn sink(name: &str, description: &str, monitor: &str) -> SinkInfo {
    SinkInfo {
        name: Some(name.to_string()),
        description: Some(description.to_string()),
        monitor_source_name: Some(monitor.to_string()),
    }
}

fn source(name: &str, description: &str) -> SourceInfo {
    SourceInfo {
        name: Some(name.to_string()),
        description: Some(description.to_string()),
        monitor_of_sink: None,
    }
}

fn names(list: &[&str]) -> Vec<Option<String>> {
    list.iter().map(|n| Some(n.to_string())).collect()
}

#[test]
fn test_is_useful_alsa_endpoint_keeps_whitelist() {
    for name in ["default", "pipewire", "pulse", "DEFAULT", "PipeWire", "PULSE"] {
        assert!(
            is_useful_alsa_endpoint(name),
            "'{}' should be kept as a useful ALSA endpoint",
            name
        );
    }
}

#[test]
fn test_is_useful_alsa_endpoint_rejects_noise() {
    for name in [
        "null",
        "lavrate",
        "samplerate",
        "speexrate",
        "jack",
        "oss",
        "speex",
        "upmix",
        "vdownmix",
        "usbstream:CARD=Generic",
        "sysdefault:CARD=Generic_1",
        "sysdefault:CARD=acppdmmach",
        "sysdefault:CARD=J380",
        "hw:0,0",
        "plughw:0,0",
        "front:CARD=Generic,DEV=0",
        "surround21:CARD=Generic",
        "iec958:CARD=Generic",
        "hdmi:CARD=HDMI,DEV=0",
        "dmix:CARD=Generic",
        "dsnoop:CARD=Generic",
        "Ryzen_HD_Audio_Controller_Speaker_monitor",
    ] {
        assert!(
            !is_useful_alsa_endpoint(name),
            "'{}' should be rejected as ALSA noise",
            name
        );
    }
}

#[test]
fn engines_are_named() {
    assert_eq!(AudioTranscriptionEngine::default().to_string(), "WhisperLargeV3Turbo");
    assert_eq!(AudioTranscriptionEngine::Deepgram.to_string(), "Deepgram");
    assert_eq!(AudioTranscriptionEngine::WhisperTiny.to_string(), "WhisperTiny");
    assert_eq!(
        AudioTranscriptionEngine::WhisperDistilLargeV3.to_string(),
        "WhisperLarge"
    );
}

#[test]
fn device_control_holds_both_flags() {
    let control = DeviceControl { is_running: true, is_paused: false };
    assert!(control.is_running && !control.is_paused);
}

#[test]
fn names_are_stored_with_their_type_and_read_back() {
    for device in [input("Built-in Microphone"), output("Dock (System Audio)")] {
        let stored = device.to_string();
        let read = AudioDevice::from_name(&stored).unwrap();
        assert_eq!(read.name, device.name);
        assert_eq!(read.device_type, device.device_type);
    }
    assert_eq!(input("Mic").to_string(), "Mic (input)");
    assert_eq!(output("Mic").to_string(), "Mic (output)");
}

#[test]
fn stored_names_are_trimmed() {
    let read = AudioDevice::from_name(&input("\u{a0} Mic \t").to_string()).unwrap();
    assert_eq!(read.name, "Mic");
}

#[test]
fn type_marker_is_read_in_any_case_but_stripped_only_as_it_is_written() {
    let read = AudioDevice::from_name("Mic (INPUT)").unwrap();
    assert_eq!(read.name, "Mic (INPUT)");
    assert_eq!(read.device_type, DeviceType::Input);
    let read = AudioDevice::from_name("Speakers (Output)").unwrap();
    assert_eq!(read.device_type, DeviceType::Output);
}

#[test]
fn repeated_markers_are_all_stripped() {
    let read = AudioDevice::from_name("Mic(input)(input)").unwrap();
    assert_eq!(read.name, "Mic");
}

#[test]
fn names_without_a_type_are_refused() {
    assert!(matches!(parse_audio_device(""), Err(DeviceNameError::Empty)));
    assert!(matches!(parse_audio_device(" \u{3000}\n"), Err(DeviceNameError::Empty)));
    assert!(matches!(parse_audio_device("Mic"), Err(DeviceNameError::MissingType)));
    assert!(matches!(
        parse_audio_device("Mic (input) "),
        Err(DeviceNameError::MissingType)
    ));
    assert_eq!(DeviceNameError::Empty.message(), "Device name cannot be empty");
    assert_eq!(
        DeviceNameError::MissingType.message(),
        "Device type (input/output) not specified in the name"
    );
}

#[test]
fn linux_devices_come_from_the_server() {
    let sources = list_sources(&vec![source("in_a", "USB Headset"), source("in_b", "USB Headset")]);
    let sinks = list_sinks(&vec![sink("out", "Speakers", "out.monitor")]);
    let devices = configure_linux_audio(Microphones::Server(sources), Some(sinks)).unwrap();
    let stored: Vec<String> = devices.iter().map(|d| d.to_string()).collect();
    assert_eq!(
        stored,
        vec![
            "USB Headset [in_a] (input)",
            "USB Headset [in_b] (input)",
            "Speakers (System Audio) (output)",
        ]
    );
}

#[test]
fn linux_devices_fall_back_to_a_few_endpoints() {
    let mut listed = names(&["hw:0,0", "pulse", "null", "Default"]);
    listed.push(None);
    let devices = configure_linux_audio(Microphones::Alsa(Ok(listed)), None).unwrap();
    let found: Vec<&str> = devices.iter().map(|d| d.name.as_str()).collect();
    assert_eq!(found, vec!["pulse", "Default"]);

    let devices = configure_linux_audio(Microphones::Alsa(Ok(names(&["hw:0,0"]))), None).unwrap();
    assert_eq!(devices.len(), 1);
    assert_eq!(devices[0].to_string(), "default (input)");

    let failed = configure_linux_audio(Microphones::Alsa(Err("no ALSA".to_string())), None);
    assert_eq!(failed.unwrap_err(), "no ALSA");
}

#[test]
fn picked_rows_resolve_to_what_they_were_offered_for() {
    let sinks = vec![
        sink("hdmi_a", "HDMI", "hdmi_a.monitor"),
        sink("hdmi_b", "HDMI", "hdmi_b.monitor"),
        sink("pci", "Speakers", "pci.monitor"),
    ];
    let sources = vec![source("mic_a", "Mic"), source("mic_b", "Mic"), source("line", "Line In")];
    let devices = configure_linux_audio(
        Microphones::Server(list_sources(&sources)),
        Some(list_sinks(&sinks)),
    )
    .unwrap();
    let mut found = Vec::new();
    for device in devices {
        let read = AudioDevice::from_name(&device.to_string()).unwrap();
        found.push(match read.device_type {
            DeviceType::Input => resolve_source(&sources, &read.name).unwrap(),
            DeviceType::Output => resolve_monitor_source(&sinks, sink_label_of(&read.name)).unwrap(),
        });
    }
    assert_eq!(
        found,
        vec!["mic_a", "mic_b", "line", "hdmi_a.monitor", "hdmi_b.monitor", "pci.monitor"]
    );
}

#[test]
fn sink_labels_are_recovered_from_names() {
    assert_eq!(sink_label_of("Dock (System Audio)"), "Dock");
    assert_eq!(sink_label_of("Dock (System Audio) (output)"), "Dock");
    assert_eq!(sink_label_of(&output("Dock (System Audio)").to_string()), "Dock");
    assert_eq!(sink_label_of("Dock (output) (System Audio)"), "Dock");
    assert_eq!(sink_label_of("Dock (output) (System Audio) (output)"), "Dock (output)");
    assert_eq!(sink_label_of("Dock (output) (output)"), "Dock (output)");
    assert_eq!(sink_label_of("Dock (output)"), "Dock");
    assert_eq!(sink_label_of("Dock"), "Dock");
    assert_eq!(sink_label_of("Dock (System Audio) "), "Dock (System Audio) ");
}

#[test]
fn host_devices_are_added_once_and_not_on_linux() {
    let listed = || {
        let mut all = names(&["Mic", "Speakers", "Speakers"]);
        all.push(None);
        all
    };
    let devices = list_audio_devices(Platform::MacOs, vec![input("Mic")], Some(listed()));
    let stored: Vec<String> = devices.iter().map(|d| d.to_string()).collect();
    assert_eq!(stored, vec!["Mic (input)", "Speakers (output)"]);

    let devices = list_audio_devices(Platform::Linux, vec![input("Mic")], Some(listed()));
    assert_eq!(devices.len(), 1);
    let devices = list_audio_devices(Platform::Windows, vec![input("Mic")], None);
    assert_eq!(devices.len(), 1);
}

#[test]
fn permission_needs_a_device_that_plays() {
    let mut stage = trigger_audio_permission();
    assert_eq!(stage, PermissionStage::FindDevice);
    assert_eq!(stage.result(), None);
    for expected in [
        PermissionStage::ReadConfig,
        PermissionStage::BuildStream,
        PermissionStage::Play,
        PermissionStage::Wait,
        PermissionStage::Settled(true),
        PermissionStage::Settled(true),
    ] {
        stage = stage.step(PermissionReply::Worked);
        assert_eq!(stage, expected);
    }
    assert_eq!(stage.result(), Some(Ok(true)));
}

#[test]
fn permission_that_is_denied_stays_denied() {
    for stage in [
        PermissionStage::FindDevice,
        PermissionStage::ReadConfig,
        PermissionStage::BuildStream,
        PermissionStage::Play,
    ] {
        let stage = stage.step(PermissionReply::Denied);
        assert_eq!(stage, PermissionStage::Settled(false));
        let stage = stage.step(PermissionReply::WentWrong("late".to_string()));
        assert_eq!(stage.result(), Some(Ok(false)));
    }
}

#[test]
fn a_busy_device_is_no_denied_permission() {
    for stage in [PermissionStage::BuildStream, PermissionStage::Play] {
        let stage = stage.step(PermissionReply::WentWrong("busy".to_string()));
        assert_eq!(stage, PermissionStage::Failed("busy".to_string()));
        let stage = stage.step(PermissionReply::Worked).step(PermissionReply::Denied);
        assert_eq!(stage.result(), Some(Err("busy".to_string())));
    }
}

#[test]
fn a_missing_device_is_a_denied_permission() {
    let failed = || Err("gone".to_string());
    for stage in [PermissionStage::FindDevice, PermissionStage::ReadConfig] {
        assert_eq!(reply_at(&stage, Ok(())), PermissionReply::Worked);
        let reply = reply_at(&stage, failed());
        assert_eq!(stage.step(reply).result(), Some(Ok(false)));
    }
    for stage in [PermissionStage::BuildStream, PermissionStage::Play] {
        assert_eq!(reply_at(&stage, Ok(())), PermissionReply::Worked);
        let reply = reply_at(&stage, failed());
        assert_eq!(stage.step(reply).result(), Some(Err("gone".to_string())));
    }
}

#[test]
fn lookup_takes_the_first_device_of_the_name() {
    let mut lookup = get_device_and_config(&input("Mic"), Platform::Linux);
    assert_eq!(lookup.stage, LookupStage::List(Listing::Inputs));
    let mut listed = names(&["Other", "Mic", "Mic"]);
    listed.insert(0, None);
    lookup.step(LookupReply::Names(Ok(listed)));
    assert_eq!(lookup.stage, LookupStage::Configure(Listing::Inputs, 2));
    lookup.step(LookupReply::Config(Ok(())));
    assert_eq!(lookup.stage, LookupStage::Found(Listing::Inputs, 2));
    assert_eq!(lookup.failure(), None);
}

#[test]
fn lookup_ignores_replies_that_do_not_fit() {
    let mut lookup = get_device_and_config(&input("Mic"), Platform::MacOs);
    lookup.step(LookupReply::DefaultInput(true));
    lookup.step(LookupReply::NoHost);
    assert_eq!(lookup.stage, LookupStage::List(Listing::Inputs));
}

#[test]
fn lookup_of_a_sink_asks_the_server() {
    let reports = vec![sink("pci", "Speakers", "pci.monitor")];
    let device = output("Speakers (System Audio)");
    let mut lookup = get_device_and_config(&device, Platform::Linux);
    assert_eq!(lookup.stage, LookupStage::ListSinks);
    assert_eq!(lookup.sink(), "Speakers");
    lookup.step(LookupReply::Sinks(Ok(reports)));
    assert_eq!(lookup.stage, LookupStage::FindDefaultInput);
    lookup.step(LookupReply::DefaultInput(true));
    lookup.step(LookupReply::Config(Ok(())));
    assert_eq!(lookup.stage, LookupStage::FoundSink);
}

#[test]
fn lookup_says_why_it_failed() {
    let fail = |device: AudioDevice, platform: Platform, replies: Vec<LookupReply>| {
        let mut lookup = get_device_and_config(&device, platform);
        for reply in replies {
            lookup.step(reply);
        }
        lookup.failure().unwrap()
    };
    let linux = Platform::Linux;
    assert_eq!(
        fail(input("Mic"), linux, vec![LookupReply::Names(Err("busy".to_string()))]),
        "busy"
    );
    assert_eq!(
        fail(
            input("Mic"),
            linux,
            vec![
                LookupReply::Names(Ok(names(&["Mic"]))),
                LookupReply::Config(Err("gone".to_string())),
            ],
        ),
        "Failed to get default input config: gone"
    );
    assert_eq!(
        fail(
            output("TV"),
            Platform::MacOs,
            vec![
                LookupReply::Names(Ok(names(&["TV"]))),
                LookupReply::Config(Err("gone".to_string())),
            ],
        ),
        "Failed to get output config: gone"
    );
    assert_eq!(
        fail(
            output("TV (System Audio)"),
            linux,
            vec![LookupReply::Sinks(Err("no server".to_string()))],
        ),
        "PulseAudio sink 'TV' not found: no server"
    );
    assert_eq!(
        fail(output("TV (System Audio)"), linux, vec![LookupReply::Sinks(Ok(vec![]))]),
        "PulseAudio sink 'TV' not found: No PulseAudio sink found matching 'TV'"
    );
    let known = || LookupReply::Sinks(Ok(vec![sink("tv", "TV", "tv.monitor")]));
    assert_eq!(
        fail(
            output("TV (System Audio)"),
            linux,
            vec![known(), LookupReply::DefaultInput(false)],
        ),
        "No default input device"
    );
    assert_eq!(
        fail(
            output("TV (System Audio)"),
            linux,
            vec![
                known(),
                LookupReply::DefaultInput(true),
                LookupReply::Config(Err("gone".to_string())),
            ],
        ),
        "Failed to get config: gone"
    );
    assert_eq!(
        fail(output("TV"), linux, vec![LookupReply::NoHost]),
        "Device not found: TV"
    );
    assert_eq!(fail(output("TV"), Platform::Other, vec![]), "Device not found: TV");
}

#[test]
fn lookup_is_left_to_windows_there() {
    let lookup = get_device_and_config(&output("TV"), Platform::Windows);
    assert_eq!(lookup.stage, LookupStage::Windows);
    let lookup = get_device_and_config(&output("TV"), Platform::Other);
    assert_eq!(lookup.stage, LookupStage::Failed(LookupFailure::NotFound));
}

#[test]
fn names_can_be_read_with_their_lower_case_at_hand() {
    let read = AudioDevice::from_lowered("Mic (Input)", "mic (input)").unwrap();
    assert_eq!(read, AudioDevice::from_name("Mic (Input)").unwrap());
    let read = AudioDevice::from_lowered("\u{c4}ther (output)", "\u{e4}ther (output)").unwrap();
    assert_eq!(read, AudioDevice::from_name("\u{c4}ther (output)").unwrap());
    assert_eq!(
        AudioDevice::from_lowered("Mic", "mic"),
        Err(DeviceNameError::MissingType)
    );
    assert!(is_useful_lowered("pulse"));
    assert!(!is_useful_lowered("PULSE"));
}
