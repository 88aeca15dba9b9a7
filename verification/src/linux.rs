//! The audio devices of a Linux machine.
//!
//! While the PulseAudio/PipeWire server can be reached, microphones and system
//! audio are what the server reports, under the labels that tell them apart.
//! Otherwise the microphones fall back to a short list of ALSA endpoints.

use crate::device::{stored_name, AudioDevice, DeviceModel, DeviceType};
use crate::pulse::{
    input_source, monitor_source, offered_sinks, offered_sources, sink_entries, sink_pairs,
    source_entries, PulseSink, PulseSource, SinkInfo, SourceInfo,
};
use crate::pulse_laws::{offered_sink_resolves, offered_source_resolves, stands_apart};
use crate::text::{
    ascii_lowercase, ends_with, is_white_space, joined, lowercase, same_text, strip_suffix_or_keep,
    to_lowercase, trimmed, without_suffix,
};
use vstd::prelude::*;
use vstd::utf8::*;

verus! {

/// The ALSA endpoints that are worth showing.
pub open spec fn is_listed_endpoint(name: Seq<char>) -> bool {
    name == "default"@ || name == "pipewire"@ || name == "pulse"@
}

/// Whether an ALSA endpoint, by its name in lower case, is worth showing.
pub fn is_useful_lowered(lower: &str) -> (useful: bool)
    ensures
        useful == is_listed_endpoint(lower@),
{
    same_text(lower, "default") || same_text(lower, "pipewire") || same_text(lower, "pulse")
}

/// Whether an ALSA endpoint is worth showing when the server cannot be reached.
///
/// ALSA exposes many plugins, rate converters and aliases that all look like
/// plausible devices, so the few useful ones are listed rather than the others
/// left out. Case makes no difference.
pub fn is_useful_alsa_endpoint(name: &str) -> (useful: bool)
    ensures
        useful == is_listed_endpoint(lowercase(name@)),
        is_ascii_chars(name@) ==> useful == is_listed_endpoint(ascii_lowercase(name@)),
{
    is_useful_lowered(to_lowercase(name).as_str())
}

/// Where the microphones of the machine come from.
#[derive(Debug)]
pub enum Microphones {
    /// The input sources of the server.
    Server(Vec<PulseSource>),
    /// The server cannot be reached: the names of the ALSA input devices (`None`
    /// for a device that gives no name), or why there are none.
    Alsa(Result<Vec<Option<String>>, String>),
}

/// The name under which a sink is offered.
pub open spec fn system_audio_name(label: Seq<char>) -> Seq<char> {
    label + " (System Audio)"@
}

/// The label of the sink that a "System Audio" name stands for. A name as the picker
/// shows it loses the two markers behind the label; any other name loses the "System
/// Audio" marker, and then a type marker.
pub open spec fn sink_label(name: Seq<char>) -> Seq<char> {
    if " (System Audio) (output)"@.is_suffix_of(name) {
        without_suffix(name, " (System Audio) (output)"@)
    } else {
        without_suffix(without_suffix(name, " (System Audio)"@), " (output)"@)
    }
}

/// The label of the sink that a "System Audio" name stands for.
pub fn sink_label_of(name: &str) -> (label: &str)
    ensures
        label@ == sink_label(name@),
{
    if ends_with(name, " (System Audio) (output)") {
        strip_suffix_or_keep(name, " (System Audio) (output)")
    } else {
        strip_suffix_or_keep(strip_suffix_or_keep(name, " (System Audio)"), " (output)")
    }
}

/// An input device of the given name.
pub open spec fn input_named(name: Seq<char>) -> DeviceModel {
    DeviceModel { name, device_type: DeviceType::Input }
}

/// The input devices for a list of sources.
pub open spec fn source_devices(sources: Seq<PulseSource>) -> Seq<DeviceModel> {
    sources.map_values(|s: PulseSource| input_named(s@.label))
}

/// An ALSA device has a name that is worth showing.
pub open spec fn is_useful(name: Option<String>) -> bool {
    name is Some && is_listed_endpoint(lowercase(name->0@))
}

/// The input devices for a list of ALSA names: those that are worth showing, or
/// else `default`, so that the list is never empty.
pub open spec fn alsa_devices(names: Seq<Option<String>>) -> Seq<DeviceModel> {
    let useful = names.filter(|n: Option<String>| is_useful(n));
    if useful.len() == 0 {
        seq![input_named("default"@)]
    } else {
        useful.map_values(|n: Option<String>| input_named(n->0@))
    }
}

/// The output devices for a list of sinks.
pub open spec fn sink_devices(sinks: Seq<PulseSink>) -> Seq<DeviceModel> {
    sinks.map_values(
        |s: PulseSink| DeviceModel {
            name: system_audio_name(s@.label),
            device_type: DeviceType::Output,
        },
    )
}

/// The models of a list of devices.
pub open spec fn device_models(devices: Seq<AudioDevice>) -> Seq<DeviceModel> {
    devices.map_values(|d: AudioDevice| d@)
}

fn add_sources(devices: &mut Vec<AudioDevice>, sources: &Vec<PulseSource>)
    ensures
        device_models(final(devices)@) == device_models(old(devices)@) + source_devices(sources@),
{
    let ghost before = devices@;
    let mut at: usize = 0;
    while at < sources.len()
        invariant
            at <= sources@.len(),
            device_models(devices@) == device_models(before) + source_devices(
                sources@.take(at as int),
            ),
        decreases sources@.len() - at,
    {
        let ghost so_far = devices@;
        devices.push(AudioDevice::new(sources[at].label.clone(), DeviceType::Input));
        proof {
            let row = input_named(sources@[at as int]@.label);
            assert(device_models(devices@) =~= device_models(so_far).push(row));
            assert(source_devices(sources@.take(at + 1)) =~= source_devices(
                sources@.take(at as int),
            ).push(row));
        }
        at = at + 1;
    }
    proof {
        assert(sources@.take(at as int) =~= sources@);
    }
}

fn add_endpoints(devices: &mut Vec<AudioDevice>, names: &Vec<Option<String>>)
    ensures
        device_models(final(devices)@) == device_models(old(devices)@) + alsa_devices(names@),
{
    let ghost before = devices@;
    let ghost keep = |n: Option<String>| is_useful(n);
    let ghost row = |n: Option<String>| input_named(n->0@);
    let mut kept_any: bool = false;
    let mut at: usize = 0;
    proof {
        reveal(Seq::filter);
        assert(device_models(devices@) =~= device_models(before) + names@.take(0).filter(
            keep,
        ).map_values(row));
    }
    while at < names.len()
        invariant
            at <= names@.len(),
            keep == (|n: Option<String>| is_useful(n)),
            row == (|n: Option<String>| input_named(n->0@)),
            kept_any == (names@.take(at as int).filter(keep).len() > 0),
            device_models(devices@) == device_models(before) + names@.take(at as int).filter(
                keep,
            ).map_values(row),
        decreases names@.len() - at,
    {
        proof {
            reveal(Seq::filter);
            assert(names@.take(at + 1).drop_last() =~= names@.take(at as int));
        }
        let ghost so_far = names@.take(at as int).filter(keep);
        if let Some(name) = &names[at] {
            if is_useful_alsa_endpoint(name.as_str()) {
                let ghost pushed_to = devices@;
                devices.push(AudioDevice::new(name.clone(), DeviceType::Input));
                kept_any = true;
                proof {
                    assert(device_models(devices@) =~= device_models(pushed_to).push(
                        input_named(name@),
                    ));
                    assert(so_far.push(names@[at as int]).map_values(row) =~= so_far.map_values(
                        row,
                    ).push(input_named(name@)));
                }
            }
        }
        at = at + 1;
    }
    proof {
        assert(names@.take(at as int) =~= names@);
    }
    if !kept_any {
        devices.push(AudioDevice::new("default".to_owned(), DeviceType::Input));
        proof {
            assert(device_models(devices@) =~= device_models(before) + alsa_devices(names@));
        }
    }
}

fn add_sinks(devices: &mut Vec<AudioDevice>, sinks: &Vec<PulseSink>)
    ensures
        device_models(final(devices)@) == device_models(old(devices)@) + sink_devices(sinks@),
{
    let ghost before = devices@;
    let mut at: usize = 0;
    while at < sinks.len()
        invariant
            at <= sinks@.len(),
            device_models(devices@) == device_models(before) + sink_devices(sinks@.take(at as int)),
        decreases sinks@.len() - at,
    {
        let name = joined(sinks[at].label.as_str(), " (System Audio)");
        let ghost so_far = devices@;
        devices.push(AudioDevice::new(name, DeviceType::Output));
        proof {
            let row = DeviceModel {
                name: system_audio_name(sinks@[at as int]@.label),
                device_type: DeviceType::Output,
            };
            assert(device_models(devices@) =~= device_models(so_far).push(row));
            assert(sink_devices(sinks@.take(at + 1)) =~= sink_devices(sinks@.take(at as int)).push(
                row,
            ));
        }
        at = at + 1;
    }
    proof {
        assert(sinks@.take(at as int) =~= sinks@);
    }
}

/// The audio devices of the machine: the microphones, then the sinks of the
/// server (`None` where they could not be listed). Fails only where the ALSA
/// devices were needed and could not be listed.
pub fn configure_linux_audio(microphones: Microphones, sinks: Option<Vec<PulseSink>>) -> (result:
    Result<Vec<AudioDevice>, String>)
    ensures
        ({
            let outputs = match sinks {
                Some(list) => sink_devices(list@),
                None => Seq::empty(),
            };
            match microphones {
                Microphones::Server(sources) => result is Ok && device_models(result->Ok_0@)
                    == source_devices(sources@) + outputs,
                Microphones::Alsa(Ok(names)) => result is Ok && device_models(result->Ok_0@)
                    == alsa_devices(names@) + outputs,
                Microphones::Alsa(Err(why)) => result == Err::<Vec<AudioDevice>, String>(why),
            }
        }),
{
    let mut devices: Vec<AudioDevice> = Vec::new();
    proof {
        assert(device_models(devices@) =~= Seq::<DeviceModel>::empty());
    }
    match microphones {
        Microphones::Server(sources) => add_sources(&mut devices, &sources),
        Microphones::Alsa(Ok(names)) => add_endpoints(&mut devices, &names),
        Microphones::Alsa(Err(why)) => return Err(why),
    }
    if let Some(list) = sinks {
        add_sinks(&mut devices, &list);
    }
    Ok(devices)
}

// ---------------------------------------------------------------------------
// Laws
// ---------------------------------------------------------------------------

/// Without a server there is always a microphone to pick, and only endpoints that
/// are worth showing are offered.
pub proof fn fallback_is_short_and_never_empty(names: Seq<Option<String>>)
    ensures
        alsa_devices(names).len() > 0,
        forall|i: int|
            0 <= i < alsa_devices(names).len() ==> (#[trigger] alsa_devices(names)[i]).name
                == "default"@ || is_listed_endpoint(lowercase(alsa_devices(names)[i].name)),
{
    let keep = |n: Option<String>| is_useful(n);
    let useful = names.filter(keep);
    assert forall|i: int| 0 <= i < alsa_devices(names).len() implies (
    #[trigger] alsa_devices(names)[i]).name == "default"@ || is_listed_endpoint(
        lowercase(alsa_devices(names)[i].name),
    ) by {
        if useful.len() > 0 {
            names.lemma_filter_pred(keep, i);
            assert(is_useful(useful[i]));
        }
    }
}

/// A text without white space at either end is kept by trimming.
pub proof fn trimming_keeps_tight_text(s: Seq<char>)
    requires
        s.len() > 0 ==> !is_white_space(s[0]) && !is_white_space(s.last()),
    ensures
        trimmed(s) == s,
{
}

/// The label of a sink comes back from the name that it is offered and stored
/// under, for every label that does not begin with white space and does not itself
/// end like a stored output.
pub proof fn offered_sink_name_gives_label_back(label: Seq<char>)
    requires
        label.len() > 0,
        !is_white_space(label[0]),
        !" (output)"@.is_suffix_of(label),
    ensures
        sink_label(trimmed(system_audio_name(label))) == label,
{
    reveal_strlit(" (System Audio)");
    reveal_strlit(" (System Audio) (output)");
    let name = system_audio_name(label);
    let end = name.len() as int;
    assert(name[end - 2] == 'o');
    if " (System Audio) (output)"@.is_suffix_of(name) {
        assert(name.subrange(end - 24, end)[22] == 't');
    }
    assert(name[0] == label[0]);
    assert(name.last() == ')');
    trimming_keeps_tight_text(name);
    assert(name.subrange(label.len() as int, name.len() as int) =~= " (System Audio)"@);
    assert(name.take(name.len() - 15) =~= label);
}

/// The label of a sink comes back from the name that the picker shows, which carries
/// both the "System Audio" and the type marker.
pub proof fn shown_sink_name_gives_label_back(label: Seq<char>)
    ensures
        sink_label(label + " (System Audio) (output)"@) == label,
        label + " (System Audio) (output)"@ == stored_name(
            DeviceModel { name: system_audio_name(label), device_type: DeviceType::Output },
        ),
{
    reveal_strlit(" (System Audio)");
    reveal_strlit(" (System Audio) (output)");
    reveal_strlit(" ");
    reveal_strlit("(output)");
    let name = system_audio_name(label);
    let shown = label + " (System Audio) (output)"@;
    assert(shown =~= name + " "@ + "(output)"@);
    assert(shown.subrange(label.len() as int, shown.len() as int) =~= " (System Audio) (output)"@);
    assert(shown.take(shown.len() - 24) =~= label);
}

/// A "System Audio" row that is picked, stored and read back is captured from the
/// monitor source of the sink that it was offered for, on a server that still
/// reports the same sinks.
pub proof fn stored_system_audio_row_is_found_again(reports: Seq<SinkInfo>, i: int)
    requires
        0 <= i < offered_sinks(reports).len(),
        stands_apart(sink_pairs(sink_entries(reports)), i),
        offered_sinks(reports)[i].label.len() > 0,
        !is_white_space(offered_sinks(reports)[i].label[0]),
        !" (output)"@.is_suffix_of(offered_sinks(reports)[i].label),
    ensures
        monitor_source(
            reports,
            sink_label(trimmed(system_audio_name(offered_sinks(reports)[i].label))),
        ) == Some(offered_sinks(reports)[i].monitor_source_name),
{
    offered_sink_name_gives_label_back(offered_sinks(reports)[i].label);
    offered_sink_resolves(reports, i);
}

/// A microphone row that is picked, stored and read back is captured from the
/// source that it was offered for, on a server that still reports the same sources.
pub proof fn stored_microphone_row_is_found_again(reports: Seq<SourceInfo>, i: int)
    requires
        0 <= i < offered_sources(reports).len(),
        stands_apart(source_entries(reports), i),
        trimmed(offered_sources(reports)[i].label) == offered_sources(reports)[i].label,
    ensures
        input_source(reports, trimmed(offered_sources(reports)[i].label)) == Some(
            offered_sources(reports)[i].source_name,
        ),
{
    offered_source_resolves(reports, i);
}

} // verus!
