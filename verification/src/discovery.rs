//! The list of audio devices, and asking for the permission to record.

use crate::device::{AudioDevice, DeviceModel, DeviceType, Platform};
use crate::linux::device_models;
use crate::selection::keeps;
use crate::text::{optional, same_text};
use vstd::prelude::*;

verus! {

// ---------------------------------------------------------------------------
// Listing
// ---------------------------------------------------------------------------

/// A device of the list has the name.
pub open spec fn is_named(devices: Seq<DeviceModel>, name: Seq<char>) -> bool {
    exists|i: int| 0 <= i < devices.len() && (#[trigger] devices[i]).name == name
}

/// An output device of the given name.
pub open spec fn output_named(name: Seq<char>) -> DeviceModel {
    DeviceModel { name, device_type: DeviceType::Output }
}

/// The devices, with an output added for each name that none of them has yet.
pub open spec fn with_host_devices(devices: Seq<DeviceModel>, names: Seq<Option<Seq<char>>>) -> Seq<
    DeviceModel,
>
    decreases names.len(),
{
    if names.len() == 0 {
        devices
    } else {
        let so_far = with_host_devices(devices, names.drop_last());
        match names.last() {
            Some(name) => if is_named(so_far, name) {
                so_far
            } else {
                so_far.push(output_named(name))
            },
            None => so_far,
        }
    }
}

/// The names of a list, as characters.
pub open spec fn name_models(names: Seq<Option<String>>) -> Seq<Option<Seq<char>>> {
    names.map_values(|n: Option<String>| optional(n))
}

fn has_name(devices: &Vec<AudioDevice>, name: &str) -> (found: bool)
    ensures
        found == is_named(device_models(devices@), name@),
{
    let ghost models = device_models(devices@);
    let mut at: usize = 0;
    while at < devices.len()
        invariant
            at <= devices@.len(),
            models == device_models(devices@),
            forall|i: int| 0 <= i < at ==> (#[trigger] models[i]).name != name@,
        decreases devices@.len() - at,
    {
        proof {
            assert(models[at as int] == devices@[at as int]@);
        }
        if same_text(devices[at].name.as_str(), name) {
            return true;
        }
        at = at + 1;
    }
    false
}

/// All audio devices: those that the platform configured, and those of the default
/// host that are not among them, by the names that the host gives (`None` for a
/// device without a name; no list where the host could not make one).
///
/// On Linux nothing is added: the platform already offers every useful device, and
/// the raw names of the host would only clutter the list.
pub fn list_audio_devices(
    platform: Platform,
    configured: Vec<AudioDevice>,
    host_names: Option<Vec<Option<String>>>,
) -> (devices: Vec<AudioDevice>)
    ensures
        device_models(devices@) == match host_names {
            Some(names) => if platform is Linux {
                device_models(configured@)
            } else {
                with_host_devices(device_models(configured@), name_models(names@))
            },
            None => device_models(configured@),
        },
{
    let mut devices = configured;
    let ghost before = device_models(devices@);
    let names = match host_names {
        Some(names) => names,
        None => return devices,
    };
    if let Platform::Linux = platform {
        return devices;
    }
    let ghost all = name_models(names@);
    let mut at: usize = 0;
    proof {
        assert(all.take(0) =~= Seq::empty());
    }
    while at < names.len()
        invariant
            at <= names@.len(),
            all == name_models(names@),
            device_models(devices@) == with_host_devices(before, all.take(at as int)),
        decreases names@.len() - at,
    {
        let ghost so_far = devices@;
        proof {
            assert(all.take(at + 1).drop_last() =~= all.take(at as int));
            assert(all.take(at + 1).last() == optional(names@[at as int]));
        }
        if let Some(name) = &names[at] {
            if !has_name(&devices, name.as_str()) {
                devices.push(AudioDevice::new(name.clone(), DeviceType::Output));
                proof {
                    assert(device_models(devices@) =~= device_models(so_far).push(
                        output_named(name@),
                    ));
                }
            }
        }
        at = at + 1;
    }
    proof {
        assert(all.take(at as int) =~= all);
    }
    devices
}

/// Adding the devices of the host keeps every configured device where it was, and
/// leaves no named device of the host out.
pub proof fn host_devices_only_add(devices: Seq<DeviceModel>, names: Seq<Option<Seq<char>>>)
    ensures
        devices.is_prefix_of(with_host_devices(devices, names)),
        forall|k: int|
            0 <= k < names.len() && (#[trigger] names[k]) is Some ==> is_named(
                with_host_devices(devices, names),
                names[k]->0,
            ),
    decreases names.len(),
{
    if names.len() > 0 {
        let rest = names.drop_last();
        let so_far = with_host_devices(devices, rest);
        let all = with_host_devices(devices, names);
        host_devices_only_add(devices, rest);
        assert(so_far.is_prefix_of(all));
        assert(devices =~= all.subrange(0, devices.len() as int)) by {
            assert forall|i: int| 0 <= i < devices.len() implies devices[i] == all[i] by {
                assert(devices[i] == so_far[i]);
                assert(so_far[i] == all[i]);
            }
        }
        assert forall|k: int| 0 <= k < names.len() && (#[trigger] names[k]) is Some implies is_named(
            all,
            names[k]->0,
        ) by {
            if k < rest.len() {
                assert(rest[k] == names[k]);
                let i = choose|i: int|
                    0 <= i < so_far.len() && (#[trigger] so_far[i]).name == names[k]->0;
                assert(all[i].name == names[k]->0);
            } else if !is_named(so_far, names[k]->0) {
                assert(all[so_far.len() as int].name == names[k]->0);
            }
        }
    }
}

/// Where no two configured devices share a name, no two devices of the whole list
/// do.
pub proof fn host_devices_add_no_duplicates(devices: Seq<DeviceModel>, names: Seq<Option<Seq<char>>>)
    requires
        forall|i: int, j: int|
            0 <= i < j < devices.len() ==> (#[trigger] devices[i]).name != (
            #[trigger] devices[j]).name,
    ensures
        forall|i: int, j: int|
            0 <= i < j < with_host_devices(devices, names).len() ==> (#[trigger] with_host_devices(
                devices,
                names,
            )[i]).name != (#[trigger] with_host_devices(devices, names)[j]).name,
    decreases names.len(),
{
    if names.len() > 0 {
        host_devices_add_no_duplicates(devices, names.drop_last());
    }
}

/// A device of the host that is not there yet: it has a name, no configured device has
/// that name, and no earlier device of the host has it.
pub open spec fn is_new(
    devices: Seq<DeviceModel>,
    names: Seq<Option<Seq<char>>>,
    k: int,
) -> bool {
    &&& names[k] is Some
    &&& forall|i: int| 0 <= i < devices.len() ==> (#[trigger] devices[i]).name != names[k]->0
    &&& forall|j: int| 0 <= j < k ==> #[trigger] names[j] != names[k]
}

/// The whole list is made of the configured devices, followed by an output for each
/// device of the host that is not there yet, in the order of the host. The positions of
/// those are returned.
pub proof fn host_devices_are_added_in_order(
    devices: Seq<DeviceModel>,
    names: Seq<Option<Seq<char>>>,
) -> (at: Seq<int>)
    ensures
        keeps(at, names.len(), |k: int| is_new(devices, names, k)),
        with_host_devices(devices, names).len() == devices.len() + at.len(),
        with_host_devices(devices, names).take(devices.len() as int) == devices,
        forall|n: int|
            0 <= n < at.len() ==> with_host_devices(devices, names)[devices.len() + n] == (
            DeviceModel { name: names[#[trigger] at[n]]->0, device_type: DeviceType::Output }),
    decreases names.len(),
{
    let all = with_host_devices(devices, names);
    let fresh = |k: int| is_new(devices, names, k);
    if names.len() == 0 {
        assert(all.take(devices.len() as int) =~= devices);
        Seq::empty()
    } else {
        let rest = names.drop_last();
        let so_far = with_host_devices(devices, rest);
        let before = host_devices_are_added_in_order(devices, rest);
        let earlier = |k: int| is_new(devices, rest, k);
        let last = names.len() - 1;
        assert forall|k: int| 0 <= k < last implies fresh(k) == #[trigger] earlier(k) by {
            assert(names[k] == rest[k]);
            assert forall|j: int| 0 <= j < k implies #[trigger] names[j] == rest[j] by {}
        }
        host_devices_only_add(devices, rest);
        if names[last] is Some {
            let name = names[last]->0;
            if is_named(so_far, name) {
                let i = choose|i: int| 0 <= i < so_far.len() && (#[trigger] so_far[i]).name == name;
                if i < devices.len() {
                    assert(so_far.take(devices.len() as int)[i] == so_far[i]);
                } else {
                    let n = i - devices.len();
                    assert(so_far[devices.len() + n].name == rest[before[n]]->0);
                    assert(earlier(before[n]));
                    assert(names[before[n]] == names[last]);
                }
                assert(!fresh(last));
            } else {
                assert forall|i: int| 0 <= i < devices.len() implies (#[trigger] devices[i]).name
                    != name by {
                    assert(so_far.take(devices.len() as int)[i] == so_far[i]);
                }
                assert forall|j: int| 0 <= j < last implies #[trigger] names[j] != names[last] by {
                    assert(rest[j] == names[j]);
                }
                assert(fresh(last));
            }
        }
        let at = if fresh(last) {
            before.push(last)
        } else {
            before
        };
        assert forall|k: int| 0 <= k < at.len() implies 0 <= #[trigger] at[k] < names.len() && fresh(
            at[k],
        ) by {
            if k < before.len() {
                assert(earlier(before[k]));
            }
        }
        assert forall|k: int| 0 <= k < names.len() && #[trigger] fresh(k) implies at.contains(k) by {
            if k < last {
                assert(earlier(k));
                let n = choose|n: int| 0 <= n < before.len() && before[n] == k;
                assert(at[n] == k);
            } else {
                assert(at[at.len() - 1] == k);
            }
        }
        assert(all.take(devices.len() as int) =~= so_far.take(devices.len() as int));
        assert forall|n: int| 0 <= n < at.len() implies all[devices.len() + n] == (DeviceModel {
            name: names[#[trigger] at[n]]->0,
            device_type: DeviceType::Output,
        }) by {
            if n < before.len() {
                assert(at[n] == before[n]);
                assert(all[devices.len() + n] == so_far[devices.len() + n]);
            }
        }
        at
    }
}

// ---------------------------------------------------------------------------
// Permission
// ---------------------------------------------------------------------------

/// How long to let a stream run so that the permission dialog can appear.
pub const PERMISSION_WAIT_MS: u64 = 500;

/// What to do next to have the system ask for the permission to record.
#[derive(Debug, PartialEq, Eq)]
pub enum PermissionStage {
    /// Look for the default input device.
    FindDevice,
    /// Ask the device for its configuration.
    ReadConfig,
    /// Build an input stream.
    BuildStream,
    /// Start the stream.
    Play,
    /// Let the stream run for [`PERMISSION_WAIT_MS`], then drop it.
    Wait,
    /// The permission is granted, or denied.
    Settled(bool),
    /// Something else went wrong.
    Failed(String),
}

/// What came of doing what a stage says.
#[derive(Debug, PartialEq, Eq)]
pub enum PermissionReply {
    /// It worked.
    Worked,
    /// It did not, for want of the permission.
    Denied,
    /// It did not, for another reason.
    WentWrong(String),
}

/// Begin to ask for the permission to record.
pub fn trigger_audio_permission() -> (stage: PermissionStage)
    ensures
        stage is FindDevice,
{
    PermissionStage::FindDevice
}

/// The stage that follows a stage that worked.
pub open spec fn after_permission_step(stage: PermissionStage) -> PermissionStage {
    match stage {
        PermissionStage::FindDevice => PermissionStage::ReadConfig,
        PermissionStage::ReadConfig => PermissionStage::BuildStream,
        PermissionStage::BuildStream => PermissionStage::Play,
        PermissionStage::Play => PermissionStage::Wait,
        PermissionStage::Wait => PermissionStage::Settled(true),
        other => other,
    }
}

/// The stage that follows a stage on a reply. Once the permission is settled, or
/// asking for it failed, nothing changes any more.
pub open spec fn permission_stage(stage: PermissionStage, reply: PermissionReply) -> PermissionStage {
    if stage is Settled || stage is Failed {
        stage
    } else {
        match reply {
            PermissionReply::Worked => after_permission_step(stage),
            PermissionReply::Denied => PermissionStage::Settled(false),
            PermissionReply::WentWrong(why) => PermissionStage::Failed(why),
        }
    }
}

/// What an outcome comes to at a stage: without the permission there is no default
/// input device, or none that tells its configuration; a stream that cannot be built
/// or played went wrong.
pub open spec fn reply_to(stage: PermissionStage, outcome: Result<(), String>) -> PermissionReply {
    match outcome {
        Ok(()) => PermissionReply::Worked,
        Err(why) => if stage is FindDevice || stage is ReadConfig {
            PermissionReply::Denied
        } else {
            PermissionReply::WentWrong(why)
        },
    }
}

/// The reply to a stage, from what came of doing what it says. A permission that is
/// denied counts as denied where it leaves no default input device, or none that tells
/// its configuration. A denial that only shows when the stream is built or played
/// cannot be told from another failure there, and counts as an error.
pub fn reply_at(stage: &PermissionStage, outcome: Result<(), String>) -> (reply: PermissionReply)
    ensures
        reply == reply_to(*stage, outcome),
{
    match outcome {
        Ok(()) => PermissionReply::Worked,
        Err(why) => match stage {
            PermissionStage::FindDevice | PermissionStage::ReadConfig => PermissionReply::Denied,
            _ => PermissionReply::WentWrong(why),
        },
    }
}

impl PermissionStage {
    /// Take in what came of doing what the stage says. (Waiting always works.)
    pub fn step(self, reply: PermissionReply) -> (next: PermissionStage)
        ensures
            next == permission_stage(self, reply),
    {
        match (self, reply) {
            (PermissionStage::Settled(granted), _) => PermissionStage::Settled(granted),
            (PermissionStage::Failed(why), _) => PermissionStage::Failed(why),
            (_, PermissionReply::Denied) => PermissionStage::Settled(false),
            (_, PermissionReply::WentWrong(why)) => PermissionStage::Failed(why),
            (PermissionStage::FindDevice, PermissionReply::Worked) => PermissionStage::ReadConfig,
            (PermissionStage::ReadConfig, PermissionReply::Worked) => PermissionStage::BuildStream,
            (PermissionStage::BuildStream, PermissionReply::Worked) => PermissionStage::Play,
            (PermissionStage::Play, PermissionReply::Worked) => PermissionStage::Wait,
            (PermissionStage::Wait, PermissionReply::Worked) => PermissionStage::Settled(true),
        }
    }

    /// Whether the permission is granted, or what went wrong; `None` while that is
    /// open.
    pub fn result(&self) -> (result: Option<Result<bool, String>>)
        ensures
            result == match *self {
                PermissionStage::Settled(granted) => Some(Ok::<bool, String>(granted)),
                PermissionStage::Failed(why) => Some(Err(why)),
                _ => None,
            },
    {
        match self {
            PermissionStage::Settled(granted) => Some(Ok(*granted)),
            PermissionStage::Failed(why) => Some(Err(why.clone())),
            _ => None,
        }
    }
}

/// The stage after the replies to finding, configuring, opening and playing the
/// default input device, and to waiting.
pub open spec fn permission_after(
    device: PermissionReply,
    config: PermissionReply,
    stream: PermissionReply,
    play: PermissionReply,
) -> PermissionStage {
    let found = permission_stage(PermissionStage::FindDevice, device);
    let opened = permission_stage(permission_stage(found, config), stream);
    permission_stage(permission_stage(opened, play), PermissionReply::Worked)
}

/// The first of the replies that is not that it worked.
pub open spec fn first_failure(
    device: PermissionReply,
    config: PermissionReply,
    stream: PermissionReply,
    play: PermissionReply,
) -> Option<PermissionReply> {
    if !(device is Worked) {
        Some(device)
    } else if !(config is Worked) {
        Some(config)
    } else if !(stream is Worked) {
        Some(stream)
    } else if !(play is Worked) {
        Some(play)
    } else {
        None
    }
}

/// The permission counts as granted exactly where there is a default input device
/// that can be configured, opened and played, and as denied exactly where the first
/// thing that did not work was denied. Anything else that went wrong is an error and
/// says nothing of the permission.
pub proof fn permission_needs_every_step(
    device: PermissionReply,
    config: PermissionReply,
    stream: PermissionReply,
    play: PermissionReply,
)
    ensures
        permission_after(device, config, stream, play) == match first_failure(
            device,
            config,
            stream,
            play,
        ) {
            None => PermissionStage::Settled(true),
            Some(PermissionReply::WentWrong(why)) => PermissionStage::Failed(why),
            Some(_) => PermissionStage::Settled(false),
        },
{
}

/// What is told of the permission, by what fails first: a missing device or
/// configuration is a denied permission, a stream that cannot be built or played is an
/// error, and where nothing fails the permission is granted.
pub proof fn permission_is_told_by_what_fails_first(
    device: Result<(), String>,
    config: Result<(), String>,
    stream: Result<(), String>,
    play: Result<(), String>,
)
    ensures
        permission_after(
            reply_to(PermissionStage::FindDevice, device),
            reply_to(PermissionStage::ReadConfig, config),
            reply_to(PermissionStage::BuildStream, stream),
            reply_to(PermissionStage::Play, play),
        ) == match (device, config, stream, play) {
            (Err(_), _, _, _) => PermissionStage::Settled(false),
            (Ok(()), Err(_), _, _) => PermissionStage::Settled(false),
            (Ok(()), Ok(()), Err(why), _) => PermissionStage::Failed(why),
            (Ok(()), Ok(()), Ok(()), Err(why)) => PermissionStage::Failed(why),
            (Ok(()), Ok(()), Ok(()), Ok(())) => PermissionStage::Settled(true),
        },
{
}

} // verus!
