//! Finding the device behind a name: which devices to list, which of them to
//! take, and what to report when there is none.

use crate::device::{AudioDevice, DeviceType, Platform};
use crate::linux::{system_audio_name, trimming_keeps_tight_text};
use crate::pulse::{
    labels_of, monitor_source, not_found_text, offered_sinks, resolve_monitor_source,
    sink_candidates, NotFound, SinkInfo,
};
use crate::text::{
    contains, enclosed, is_white_space, joined, occurs_at, occurs_in, optional, same_text,
    strip_suffix_or_keep, trimmed, without_suffix,
};
use vstd::prelude::*;

verus! {

/// A list of devices to look a name up in.
#[derive(Clone, Copy, Debug, PartialEq, Eq, Structural)]
pub enum Listing {
    /// The input devices of the default host.
    Inputs,
    /// The output devices of the default host.
    Outputs,
    /// The input devices of the ALSA host.
    AlsaInputs,
}

/// Why a device was not found.
#[derive(Debug, PartialEq, Eq)]
pub enum LookupFailure {
    /// The devices could not be listed.
    Listing(String),
    /// The device is there, but has no configuration.
    NoConfig(Listing, String),
    /// The sinks of the server could not be listed.
    NoSinks(String),
    /// The server has no such sink.
    NoSink,
    /// There is no default input device to stand in for a sink.
    NoDefaultInput,
    /// The device that stands in for a sink has no configuration.
    NoDefaultConfig(String),
    /// No device has the name.
    NotFound,
}

/// Where a lookup stands, and with that what to do next.
#[derive(Debug, PartialEq, Eq)]
pub enum LookupStage {
    /// Leave the whole lookup to Windows.
    Windows,
    /// List the devices.
    List(Listing),
    /// Ask the device at this position of the list for its configuration.
    Configure(Listing, usize),
    /// List the sinks of the server, to find the one that is named.
    ListSinks,
    /// Look for the default input device, which stands in for a sink: the capture
    /// itself does not go through it.
    FindDefaultInput,
    /// Ask the default input device for its configuration.
    ConfigureDefault,
    /// The device at this position of the list is the one.
    Found(Listing, usize),
    /// The default input device stands in for the sink.
    FoundSink,
    /// There is no such device.
    Failed(LookupFailure),
}

/// What came of doing what a stage says.
#[derive(Debug)]
pub enum LookupReply {
    /// The names of the listed devices (`None` for a device that gives no name), or
    /// why they could not be listed.
    Names(Result<Vec<Option<String>>, String>),
    /// The host that was to list its devices does not exist.
    NoHost,
    /// Whether there is a configuration, or why there is none.
    Config(Result<(), String>),
    /// The sinks that the server reports, or why there is no report.
    Sinks(Result<Vec<SinkInfo>, String>),
    /// Whether there is a default input device.
    DefaultInput(bool),
}

/// The lookup of a device.
#[derive(Debug)]
pub struct DeviceLookup {
    pub device: AudioDevice,
    pub platform: Platform,
    pub stage: LookupStage,
}

/// A name marks a sink of the server.
pub open spec fn names_a_sink(name: Seq<char>) -> bool {
    occurs_in(name, "(System Audio)"@)
}

/// Where the lookup of a device begins.
pub open spec fn first_stage(device: AudioDevice, platform: Platform) -> LookupStage {
    match (platform, device.device_type) {
        (Platform::Windows, _) => LookupStage::Windows,
        (_, DeviceType::Input) => LookupStage::List(Listing::Inputs),
        (Platform::MacOs, DeviceType::Output) => LookupStage::List(Listing::Outputs),
        (Platform::Linux, DeviceType::Output) => if names_a_sink(device.name@) {
            LookupStage::ListSinks
        } else {
            LookupStage::List(Listing::AlsaInputs)
        },
        (Platform::Other, DeviceType::Output) => LookupStage::Failed(LookupFailure::NotFound),
    }
}

/// The position of the first device that gives the wanted name.
pub open spec fn position_named(names: Seq<Option<String>>, wanted: Seq<char>) -> Option<int> {
    names.map_values(|n: Option<String>| optional(n)).index_of_first(Some(wanted))
}

/// The reply belongs to the stage.
pub open spec fn answers(stage: LookupStage, reply: LookupReply) -> bool {
    match stage {
        LookupStage::List(listing) => reply is Names || (reply is NoHost && listing is AlsaInputs),
        LookupStage::Configure(_, _) => reply is Config,
        LookupStage::ListSinks => reply is Sinks,
        LookupStage::FindDefaultInput => reply is DefaultInput,
        LookupStage::ConfigureDefault => reply is Config,
        _ => false,
    }
}

/// The stage that follows a stage on a reply. A reply that does not belong to the
/// stage leaves it as it is.
pub open spec fn next_stage(stage: LookupStage, wanted: Seq<char>, reply: LookupReply) -> LookupStage {
    match (stage, reply) {
        (LookupStage::List(listing), LookupReply::Names(Ok(names))) => match position_named(
            names@,
            wanted,
        ) {
            Some(at) => LookupStage::Configure(listing, at as usize),
            None => LookupStage::Failed(LookupFailure::NotFound),
        },
        (LookupStage::List(_), LookupReply::Names(Err(why))) => LookupStage::Failed(
            LookupFailure::Listing(why),
        ),
        (LookupStage::List(Listing::AlsaInputs), LookupReply::NoHost) => LookupStage::Failed(
            LookupFailure::NotFound,
        ),
        (LookupStage::Configure(listing, at), LookupReply::Config(Ok(()))) => LookupStage::Found(
            listing,
            at,
        ),
        (LookupStage::Configure(listing, _), LookupReply::Config(Err(why))) => LookupStage::Failed(
            LookupFailure::NoConfig(listing, why),
        ),
        (LookupStage::ListSinks, LookupReply::Sinks(Ok(reports))) => {
            if monitor_source(reports@, sink_description(wanted)) is Some {
                LookupStage::FindDefaultInput
            } else {
                LookupStage::Failed(LookupFailure::NoSink)
            }
        },
        (LookupStage::ListSinks, LookupReply::Sinks(Err(why))) => LookupStage::Failed(
            LookupFailure::NoSinks(why),
        ),
        (LookupStage::FindDefaultInput, LookupReply::DefaultInput(there)) => if there {
            LookupStage::ConfigureDefault
        } else {
            LookupStage::Failed(LookupFailure::NoDefaultInput)
        },
        (LookupStage::ConfigureDefault, LookupReply::Config(Ok(()))) => LookupStage::FoundSink,
        (LookupStage::ConfigureDefault, LookupReply::Config(Err(why))) => LookupStage::Failed(
            LookupFailure::NoDefaultConfig(why),
        ),
        _ => stage,
    }
}

/// The description of the sink that a name stands for.
pub open spec fn sink_description(name: Seq<char>) -> Seq<char> {
    without_suffix(name, " (System Audio)"@)
}

/// The message for a device that was not found.
pub open spec fn failure_text(name: Seq<char>, failure: LookupFailure) -> Seq<char> {
    match failure {
        LookupFailure::Listing(why) => why@,
        LookupFailure::NoConfig(Listing::Outputs, why) => "Failed to get output config: "@ + why@,
        LookupFailure::NoConfig(_, why) => "Failed to get default input config: "@ + why@,
        LookupFailure::NoSinks(why) => "PulseAudio sink '"@ + sink_description(name)
            + "' not found: "@ + why@,
        LookupFailure::NoSink => "PulseAudio sink '"@ + sink_description(name) + "' not found: "@
            + not_found_text("sink"@, sink_description(name)),
        LookupFailure::NoDefaultInput => "No default input device"@,
        LookupFailure::NoDefaultConfig(why) => "Failed to get config: "@ + why@,
        LookupFailure::NotFound => "Device not found: "@ + name,
    }
}

/// The first of the names that is the wanted one.
fn find_name(names: &Vec<Option<String>>, wanted: &str) -> (position: Option<usize>)
    ensures
        match position {
            Some(at) => position_named(names@, wanted@) == Some(at as int),
            None => position_named(names@, wanted@) is None,
        },
{
    let ghost keys = names@.map_values(|n: Option<String>| optional(n));
    let ghost key = Some(wanted@);
    proof {
        keys.index_of_first_ensures(key);
    }
    let mut at: usize = 0;
    while at < names.len()
        invariant
            at <= names@.len(),
            keys == names@.map_values(|n: Option<String>| optional(n)),
            key == Some(wanted@),
            forall|k: int| 0 <= k < at ==> keys[k] != key,
            match keys.index_of_first(key) {
                Some(i) => 0 <= i < keys.len() && keys[i] == key && (forall|j: int|
                    0 <= j < i ==> keys[j] != key),
                None => !keys.contains(key),
            },
        decreases names@.len() - at,
    {
        proof {
            assert(keys[at as int] == optional(names@[at as int]));
        }
        if let Some(name) = &names[at] {
            if same_text(name.as_str(), wanted) {
                return Some(at);
            }
        }
        at = at + 1;
    }
    None
}

/// Begin to look for the device behind a name.
///
/// On Linux, system audio is captured straight from the server, so a sink only has
/// to exist there. Every other name has to be that of a listed device.
pub fn get_device_and_config(audio_device: &AudioDevice, platform: Platform) -> (lookup: DeviceLookup)
    ensures
        lookup.device == *audio_device,
        lookup.platform == platform,
        lookup.stage == first_stage(*audio_device, platform),
{
    let stage = match platform {
        Platform::Windows => LookupStage::Windows,
        _ => match audio_device.device_type {
            DeviceType::Input => LookupStage::List(Listing::Inputs),
            DeviceType::Output => match platform {
                Platform::MacOs => LookupStage::List(Listing::Outputs),
                Platform::Linux => if contains(audio_device.name.as_str(), "(System Audio)") {
                    LookupStage::ListSinks
                } else {
                    LookupStage::List(Listing::AlsaInputs)
                },
                _ => LookupStage::Failed(LookupFailure::NotFound),
            },
        },
    };
    DeviceLookup { device: audio_device.clone(), platform, stage }
}

impl DeviceLookup {
    /// Take in what came of doing what the stage says.
    pub fn step(&mut self, reply: LookupReply)
        ensures
            final(self).device == old(self).device,
            final(self).platform == old(self).platform,
            final(self).stage == next_stage(old(self).stage, old(self).device.name@, reply),
    {
        let next = match (&self.stage, reply) {
            (LookupStage::List(listing), LookupReply::Names(Ok(names))) => {
                match find_name(&names, self.device.name.as_str()) {
                    Some(at) => LookupStage::Configure(*listing, at),
                    None => LookupStage::Failed(LookupFailure::NotFound),
                }
            },
            (LookupStage::List(_), LookupReply::Names(Err(why))) => LookupStage::Failed(
                LookupFailure::Listing(why),
            ),
            (LookupStage::List(Listing::AlsaInputs), LookupReply::NoHost) => LookupStage::Failed(
                LookupFailure::NotFound,
            ),
            (LookupStage::Configure(listing, at), LookupReply::Config(Ok(()))) => LookupStage::Found(
                *listing,
                *at,
            ),
            (
                LookupStage::Configure(listing, _),
                LookupReply::Config(Err(why)),
            ) => LookupStage::Failed(LookupFailure::NoConfig(*listing, why)),
            (LookupStage::ListSinks, LookupReply::Sinks(Ok(reports))) => {
                if resolve_monitor_source(&reports, self.sink()).is_ok() {
                    LookupStage::FindDefaultInput
                } else {
                    LookupStage::Failed(LookupFailure::NoSink)
                }
            },
            (LookupStage::ListSinks, LookupReply::Sinks(Err(why))) => LookupStage::Failed(
                LookupFailure::NoSinks(why),
            ),
            (LookupStage::FindDefaultInput, LookupReply::DefaultInput(there)) => if there {
                LookupStage::ConfigureDefault
            } else {
                LookupStage::Failed(LookupFailure::NoDefaultInput)
            },
            (LookupStage::ConfigureDefault, LookupReply::Config(Ok(()))) => LookupStage::FoundSink,
            (LookupStage::ConfigureDefault, LookupReply::Config(Err(why))) => LookupStage::Failed(
                LookupFailure::NoDefaultConfig(why),
            ),
            _ => return,
        };
        self.stage = next;
    }

    /// The description of the sink to find.
    pub fn sink(&self) -> (description: &str)
        ensures
            description@ == sink_description(self.device.name@),
    {
        strip_suffix_or_keep(self.device.name.as_str(), " (System Audio)")
    }

    /// The message for a device that was not found; `None` while the lookup goes on
    /// and where it found the device.
    pub fn failure(&self) -> (message: Option<String>)
        ensures
            optional(message) == match self.stage {
                LookupStage::Failed(why) => Some(failure_text(self.device.name@, why)),
                _ => None,
            },
    {
        let why = match &self.stage {
            LookupStage::Failed(why) => why,
            _ => return None,
        };
        Some(
            match why {
                LookupFailure::Listing(why) => why.clone(),
                LookupFailure::NoConfig(Listing::Outputs, why) => joined(
                    "Failed to get output config: ",
                    why.as_str(),
                ),
                LookupFailure::NoConfig(_, why) => joined(
                    "Failed to get default input config: ",
                    why.as_str(),
                ),
                LookupFailure::NoSinks(why) => joined(
                    enclosed("PulseAudio sink '", self.sink(), "' not found: ").as_str(),
                    why.as_str(),
                ),
                LookupFailure::NoSink => {
                    let why = NotFound { kind: "sink".to_owned(), stored: self.sink().to_owned() };
                    joined(
                        enclosed("PulseAudio sink '", self.sink(), "' not found: ").as_str(),
                        why.message().as_str(),
                    )
                },
                LookupFailure::NoDefaultInput => "No default input device".to_owned(),
                LookupFailure::NoDefaultConfig(why) => joined("Failed to get config: ", why.as_str()),
                LookupFailure::NotFound => joined("Device not found: ", self.device.name.as_str()),
            },
        )
    }
}

// ---------------------------------------------------------------------------
// Laws
// ---------------------------------------------------------------------------

/// How many replies a lookup still takes at most.
pub open spec fn replies_left(stage: LookupStage) -> nat {
    match stage {
        LookupStage::ListSinks => 3,
        LookupStage::List(_) | LookupStage::FindDefaultInput => 2,
        LookupStage::Configure(_, _) | LookupStage::ConfigureDefault => 1,
        _ => 0,
    }
}

/// Every lookup ends: a reply that belongs to the stage brings it closer to its
/// end, and any other reply changes nothing.
pub proof fn lookup_ends(stage: LookupStage, wanted: Seq<char>, reply: LookupReply)
    ensures
        answers(stage, reply) ==> replies_left(next_stage(stage, wanted, reply)) < replies_left(
            stage,
        ),
        !answers(stage, reply) ==> next_stage(stage, wanted, reply) == stage,
{
}

/// A device is only ever found under the very name that was asked for: the list is
/// entered at the first position that gives that name.
pub proof fn found_device_has_the_name(
    listing: Listing,
    names: Vec<Option<String>>,
    wanted: Seq<char>,
    at: usize,
)
    requires
        next_stage(
            LookupStage::List(listing),
            wanted,
            LookupReply::Names(Ok(names)),
        ) == LookupStage::Configure(listing, at),
        names@.len() <= usize::MAX,
    ensures
        at < names@.len(),
        optional(names@[at as int]) == Some(wanted),
        forall|j: int| 0 <= j < at ==> optional(#[trigger] names@[j]) != Some(wanted),
{
    let keys = names@.map_values(|n: Option<String>| optional(n));
    keys.index_of_first_ensures(Some(wanted));
    assert forall|j: int| 0 <= j < at implies optional(#[trigger] names@[j]) != Some(wanted) by {
        assert(keys[j] == optional(names@[j]));
    }
}

/// System audio that was picked for a sink, stored and read back can be had, as far as
/// the server is concerned, while the server still reports the sink.
pub proof fn picked_sink_is_known(reports: Vec<SinkInfo>, i: int)
    requires
        0 <= i < offered_sinks(reports@).len(),
        offered_sinks(reports@)[i].label.len() > 0,
        !is_white_space(offered_sinks(reports@)[i].label[0]),
    ensures
        names_a_sink(trimmed(system_audio_name(offered_sinks(reports@)[i].label))),
        next_stage(
            LookupStage::ListSinks,
            trimmed(system_audio_name(offered_sinks(reports@)[i].label)),
            LookupReply::Sinks(Ok(reports)),
        ) is FindDefaultInput,
{
    reveal_strlit(" (System Audio)");
    reveal_strlit("(System Audio)");
    let label = offered_sinks(reports@)[i].label;
    let name = system_audio_name(label);
    assert(name[0] == label[0]);
    assert(name.last() == ')');
    trimming_keeps_tight_text(name);
    assert(name.subrange(label.len() as int, name.len() as int) =~= " (System Audio)"@);
    assert(name.take(name.len() - 15) =~= label);
    assert(name.subrange(label.len() as int + 1, name.len() as int) =~= "(System Audio)"@);
    assert(occurs_at(name, "(System Audio)"@, label.len() as int + 1));
    let entries = sink_candidates(offered_sinks(reports@));
    let keys = labels_of(entries);
    keys.index_of_first_ensures(label);
    assert(keys[i] == label);
}

} // verus!
