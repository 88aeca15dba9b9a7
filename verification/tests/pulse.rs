use meetily_audio::pulse::{build_labels, label_for_sink_name, resolve_stored, PulseSink};

fn sink(description: &str, sink_name: &str, monitor: &str, label: &str) -> PulseSink {
    PulseSink {
        description: description.to_string(),
        sink_name: sink_name.to_string(),
        monitor_source_name: monitor.to_string(),
        label: label.to_string(),
    }
}

fn entry(label: &str, description: &str, name: &str) -> (String, String, String) {
    (label.to_string(), description.to_string(), name.to_string())
}

#[test]
fn test_label_for_sink_name_matches_sink_name() {
    let sinks = vec![
        sink("Speakers", "alsa_output.pci-0000", "alsa_output.pci-0000.monitor", "Speakers"),
        sink(
            "JBL Tune 770NC",
            "bluez_output.AC_12",
            "bluez_output.AC_12.monitor",
            "JBL Tune 770NC",
        ),
    ];
    assert_eq!(
        label_for_sink_name(&sinks, "bluez_output.AC_12"),
        Some("JBL Tune 770NC".to_string())
    );
}

#[test]
fn test_label_for_sink_name_falls_back_to_monitor_suffix() {
    let sinks = vec![sink("Speakers", "", "alsa_output.pci-0000.monitor", "Speakers")];
    assert_eq!(
        label_for_sink_name(&sinks, "alsa_output.pci-0000"),
        Some("Speakers".to_string())
    );
}

#[test]
fn test_label_for_sink_name_prefers_sink_name_over_monitor_suffix() {
    let sinks = vec![
        sink("Wrong", "other_sink", "alsa_output.pci-0000.monitor", "Wrong"),
        sink("Right", "alsa_output.pci-0000", "some_other.monitor", "Right"),
    ];
    assert_eq!(
        label_for_sink_name(&sinks, "alsa_output.pci-0000"),
        Some("Right".to_string())
    );
}

#[test]
fn test_label_for_sink_name_returns_none_when_absent() {
    let sinks = vec![sink(
        "Speakers",
        "alsa_output.pci-0000",
        "alsa_output.pci-0000.monitor",
        "Speakers",
    )];
    assert_eq!(label_for_sink_name(&sinks, "bluez_output.GONE"), None);
}

#[test]
fn test_label_for_sink_name_returns_none_for_empty_list() {
    assert_eq!(label_for_sink_name(&[], "alsa_output.pci-0000"), None);
}

#[test]
fn test_label_for_sink_name_returns_none_for_empty_default() {
    let sinks = vec![sink("Speakers", "", "alsa_output.pci-0000.monitor", "Speakers")];
    assert_eq!(label_for_sink_name(&sinks, ""), None);
}

#[test]
fn test_build_labels_leaves_unique_descriptions_alone() {
    let entries = vec![
        ("Built-in Analog Stereo".to_string(), "alsa_output.pci-0000_00_1f.3".to_string()),
        ("JBL Tune 770NC".to_string(), "bluez_output.AC_12_2F".to_string()),
    ];
    assert_eq!(
        build_labels(&entries),
        vec!["Built-in Analog Stereo", "JBL Tune 770NC"]
    );
}

#[test]
fn test_build_labels_disambiguates_shared_descriptions() {
    let entries = vec![
        ("USB Headset".to_string(), "alsa_output.usb-0001".to_string()),
        ("USB Headset".to_string(), "alsa_output.usb-0002".to_string()),
        ("Built-in".to_string(), "alsa_output.pci-0000".to_string()),
    ];
    assert_eq!(
        build_labels(&entries),
        vec![
            "USB Headset [alsa_output.usb-0001]",
            "USB Headset [alsa_output.usb-0002]",
            "Built-in",
        ]
    );
}

#[test]
fn test_build_labels_uses_brackets_not_parens() {
    let entries = vec![
        ("Dock".to_string(), "sink_a".to_string()),
        ("Dock".to_string(), "sink_b".to_string()),
    ];
    for label in build_labels(&entries) {
        assert!(!label.ends_with(')'), "label '{}' must not end with a paren", label);
    }
}

#[test]
fn test_resolve_stored_matches_label_first() {
    let entries = vec![
        entry("USB Headset [sink_a]", "USB Headset", "sink_a"),
        entry("USB Headset [sink_b]", "USB Headset", "sink_b"),
    ];
    assert_eq!(
        resolve_stored(&entries, "USB Headset [sink_b]", "sink").unwrap(),
        "sink_b"
    );
}

#[test]
fn test_resolve_stored_falls_back_to_bare_description() {
    let entries = vec![entry("Built-in", "Built-in", "alsa_output.pci-0000")];
    assert_eq!(
        resolve_stored(&entries, "Built-in", "sink").unwrap(),
        "alsa_output.pci-0000"
    );
}

#[test]
fn test_resolve_stored_is_deterministic_when_descriptions_collide() {
    let entries = vec![
        entry("USB Headset [sink_a]", "USB Headset", "sink_a"),
        entry("USB Headset [sink_b]", "USB Headset", "sink_b"),
    ];
    assert_eq!(
        resolve_stored(&entries, "USB Headset", "sink").unwrap(),
        "sink_a"
    );
}

#[test]
fn test_resolve_stored_errors_when_nothing_matches() {
    let entries = vec![entry("Built-in", "Built-in", "alsa_output.pci-0000")];
    assert!(resolve_stored(&entries, "Vanished Device", "sink").is_err());
}
