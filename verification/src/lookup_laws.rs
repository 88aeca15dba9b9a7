//! What the lookup of a device comes to as a whole: which device is found, and why none
//! is.

use crate::device::{AudioDevice, DeviceType, Platform};
use crate::lookup::{
    failure_text, first_stage, lookup_ends, next_stage, replies_left, Listing, LookupFailure,
    LookupReply, LookupStage,
};
use crate::pulse::{monitor_source, SinkInfo};
use crate::text::{occurs_at, occurs_in, optional, without_suffix};
use vstd::prelude::*;

verus! {

/// What a lookup finds around it: the answer to everything that it asks for.
pub struct Surroundings {
    /// The names of the devices of a list (`None` for a device without one).
    pub names: spec_fn(Listing) -> Result<Vec<Option<String>>, String>,
    /// There is an ALSA host.
    pub has_alsa: bool,
    /// Whether the device at a position of a list has a configuration.
    pub config: spec_fn(Listing, int) -> Result<(), String>,
    pub sinks: Result<Vec<SinkInfo>, String>,
    pub default_input: bool,
    pub default_config: Result<(), String>,
}

impl Surroundings {
    /// What comes of doing what a stage says.
    pub open spec fn reply(self, stage: LookupStage) -> LookupReply {
        match stage {
            LookupStage::List(listing) => if listing is AlsaInputs && !self.has_alsa {
                LookupReply::NoHost
            } else {
                LookupReply::Names((self.names)(listing))
            },
            LookupStage::Configure(listing, at) => LookupReply::Config(
                (self.config)(listing, at as int),
            ),
            LookupStage::ListSinks => LookupReply::Sinks(self.sinks),
            LookupStage::FindDefaultInput => LookupReply::DefaultInput(self.default_input),
            _ => LookupReply::Config(self.default_config),
        }
    }
}

/// The stage of a lookup once everything is done that it says.
pub open spec fn outcome(stage: LookupStage, wanted: Seq<char>, around: Surroundings) -> LookupStage
    decreases replies_left(stage),
{
    match stage {
        LookupStage::Windows
        | LookupStage::Found(_, _)
        | LookupStage::FoundSink
        | LookupStage::Failed(_) => stage,
        _ => {
            proof {
                lookup_ends(stage, wanted, around.reply(stage));
            }
            outcome(next_stage(stage, wanted, around.reply(stage)), wanted, around)
        },
    }
}

/// The device at a position of a list is the first that has the name.
pub open spec fn is_first_named(names: Seq<Option<String>>, at: int, wanted: Seq<char>) -> bool {
    &&& 0 <= at < names.len()
    &&& names[at] is Some && names[at]->0@ == wanted
    &&& forall|j: int| 0 <= j < at ==> !(#[trigger] names[j] is Some && names[j]->0@ == wanted)
}

/// No device of a list has the name.
pub open spec fn is_not_named(names: Seq<Option<String>>, wanted: Seq<char>) -> bool {
    forall|j: int| 0 <= j < names.len() ==> !(#[trigger] names[j] is Some && names[j]->0@ == wanted)
}

/// What is found in a list is the first device of the name, if it has a configuration,
/// and in that very list; otherwise the failure says what went wrong.
pub open spec fn found_in(
    end: LookupStage,
    listing: Listing,
    wanted: Seq<char>,
    around: Surroundings,
) -> bool {
    match (around.names)(listing) {
        Err(why) => end == LookupStage::Failed(LookupFailure::Listing(why)),
        Ok(names) => {
            ||| is_not_named(names@, wanted) && end == LookupStage::Failed(LookupFailure::NotFound)
            ||| exists|at: usize|
                {
                    &&& #[trigger] is_first_named(names@, at as int, wanted)
                    &&& match (around.config)(listing, at as int) {
                        Ok(()) => end == LookupStage::Found(listing, at),
                        Err(why) => end == LookupStage::Failed(
                            LookupFailure::NoConfig(listing, why),
                        ),
                    }
                }
        },
    }
}

proof fn lemma_found_in(listing: Listing, wanted: Seq<char>, around: Surroundings)
    requires
        listing is AlsaInputs ==> around.has_alsa,
        forall|names: Vec<Option<String>>|
            (around.names)(listing) == Ok::<_, String>(names) ==> #[trigger] names@.len()
                <= usize::MAX,
    ensures
        found_in(outcome(LookupStage::List(listing), wanted, around), listing, wanted, around),
{
    let stage = LookupStage::List(listing);
    reveal_with_fuel(outcome, 3);
    if let Ok(names) = (around.names)(listing) {
        let keys = names@.map_values(|n: Option<String>| optional(n));
        let key = Some(wanted);
        keys.index_of_first_ensures(key);
        assert(names@.len() <= usize::MAX);
        match keys.index_of_first(key) {
            Some(i) => {
                let at = i as usize;
                assert(keys[i] == optional(names@[i]));
                assert forall|j: int| 0 <= j < i implies !(#[trigger] names@[j] is Some
                    && names@[j]->0@ == wanted) by {
                    assert(keys[j] == optional(names@[j]));
                }
                assert(is_first_named(names@, at as int, wanted));
            },
            None => {
                assert forall|j: int| 0 <= j < names@.len() implies !(#[trigger] names@[j] is Some
                    && names@[j]->0@ == wanted) by {
                    assert(keys[j] == optional(names@[j]));
                }
            },
        }
    }
}

/// A lookup finds the device of the name where it is to be looked for: an input among
/// the inputs of the host, an output among its outputs on macOS, and on Linux a sink of
/// the server where the name says so and an ALSA input otherwise. What is found is the
/// first device of that name, in the list that it was looked for in.
pub proof fn lookup_finds_the_device(device: AudioDevice, platform: Platform, around: Surroundings)
    requires
        forall|listing: Listing, names: Vec<Option<String>>|
            #[trigger] (around.names)(listing) == Ok::<_, String>(names) ==> #[trigger] names@.len()
                <= usize::MAX,
    ensures
        ({
            let end = outcome(first_stage(device, platform), device.name@, around);
            let is_sink = occurs_in(device.name@, "(System Audio)"@);
            let is_input = device.device_type == DeviceType::Input;
            if platform == Platform::Windows {
                end is Windows
            } else if is_input {
                found_in(end, Listing::Inputs, device.name@, around)
            } else if platform == Platform::MacOs {
                found_in(end, Listing::Outputs, device.name@, around)
            } else if platform == Platform::Linux && is_sink {
                match around.sinks {
                    Err(why) => end == LookupStage::Failed(LookupFailure::NoSinks(why)),
                    Ok(sinks) => if monitor_source(
                        sinks@,
                        without_suffix(device.name@, " (System Audio)"@),
                    ) is None {
                        end == LookupStage::Failed(LookupFailure::NoSink)
                    } else if !around.default_input {
                        end == LookupStage::Failed(LookupFailure::NoDefaultInput)
                    } else {
                        match around.default_config {
                            Ok(()) => end is FoundSink,
                            Err(why) => end == LookupStage::Failed(
                                LookupFailure::NoDefaultConfig(why),
                            ),
                        }
                    },
                }
            } else if platform == Platform::Linux && around.has_alsa {
                found_in(end, Listing::AlsaInputs, device.name@, around)
            } else {
                end == LookupStage::Failed(LookupFailure::NotFound)
            }
        }),
{
    reveal_with_fuel(outcome, 4);
    let stage = first_stage(device, platform);
    if let LookupStage::List(listing) = stage {
        if listing is AlsaInputs && !around.has_alsa {
        } else {
            lemma_found_in(listing, device.name@, around);
        }
    }
}

/// What is told of a lookup that failed ends with the reason that was given for it, or
/// with the name that was looked for.
pub proof fn failure_tells_its_reason(name: Seq<char>, failure: LookupFailure)
    ensures
        match failure {
            LookupFailure::Listing(why) => failure_text(name, failure) == why@,
            LookupFailure::NoConfig(_, why) => why@.is_suffix_of(failure_text(name, failure)),
            LookupFailure::NoSinks(why) => why@.is_suffix_of(failure_text(name, failure))
                && occurs_in(
                failure_text(name, failure),
                without_suffix(name, " (System Audio)"@),
            ),
            LookupFailure::NoSink => occurs_in(
                failure_text(name, failure),
                without_suffix(name, " (System Audio)"@),
            ),
            LookupFailure::NoDefaultInput => true,
            LookupFailure::NoDefaultConfig(why) => why@.is_suffix_of(failure_text(name, failure)),
            LookupFailure::NotFound => name.is_suffix_of(failure_text(name, failure)),
        },
{
    let text = failure_text(name, failure);
    let end = text.len() as int;
    let sink = without_suffix(name, " (System Audio)"@);
    let at = "PulseAudio sink '"@.len() as int;
    match failure {
        LookupFailure::NoConfig(_, why) => {
            assert(text.subrange(end - why@.len(), end) =~= why@);
        },
        LookupFailure::NoSinks(why) => {
            assert(text.subrange(end - why@.len(), end) =~= why@);
            assert(text.subrange(at, at + sink.len()) =~= sink);
            assert(occurs_at(text, sink, at));
        },
        LookupFailure::NoSink => {
            assert(text.subrange(at, at + sink.len()) =~= sink);
            assert(occurs_at(text, sink, at));
        },
        LookupFailure::NoDefaultConfig(why) => {
            assert(text.subrange(end - why@.len(), end) =~= why@);
        },
        LookupFailure::NotFound => {
            assert(text.subrange(end - name.len(), end) =~= name);
        },
        _ => {},
    }
}

} // verus!
