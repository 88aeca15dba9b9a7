//! What a startup comes to as a whole: with which devices, under which name and where
//! a recording starts, and why it does not.

use crate::clock::LocalTime;
use crate::device::{parsed, AudioDevice, DeviceModel, Platform};
use crate::session::RecordingSession;
use crate::start::{
    begun, chosen, place, session_after, startup_goes_forward, RecordingPreferences, StartFailure,
    StartReply, StartStage, Startup,
};
use crate::stream::CaptureKind;
use crate::text::{occurs_at, occurs_in};
use vstd::prelude::*;

verus! {

/// What a manager is asked to record.
#[verifier::ext_equal]
pub struct PlanModel {
    pub microphone: Option<DeviceModel>,
    pub system_audio: Option<DeviceModel>,
    pub auto_save: bool,
    pub folder: Option<String>,
    pub meeting_name: Option<Seq<char>>,
}

/// What a startup finds around it: the answer to everything that it asks for.
pub struct Surroundings<M, T, L> {
    pub model: Result<(), String>,
    pub preferences: Option<RecordingPreferences>,
    /// Whether a device can be had for a use.
    pub there: spec_fn(CaptureKind, DeviceModel) -> bool,
    pub default_microphone: Result<AudioDevice, String>,
    pub default_system: Result<AudioDevice, String>,
    pub time: LocalTime,
    /// What comes of asking a manager to record.
    pub started: spec_fn(PlanModel) -> Result<M, String>,
    pub task: T,
    pub listener: L,
}

/// What the manager is asked to record at this point.
pub open spec fn planned(startup: Startup) -> PlanModel {
    PlanModel {
        microphone: chosen(startup.microphone, startup.microphone_name),
        system_audio: chosen(startup.system, startup.system_name),
        auto_save: startup.auto_save,
        folder: startup.folder,
        meeting_name: startup.effective_name(),
    }
}

impl<M, T, L> Surroundings<M, T, L> {
    /// What comes of doing what the stage of a startup says.
    pub open spec fn reply(self, startup: Startup) -> StartReply<M, T, L> {
        match startup.stage {
            StartStage::ValidateModel => StartReply::Model(self.model),
            StartStage::LoadPreferences => StartReply::Preferences(self.preferences),
            StartStage::ProbeMicrophone => StartReply::Probed(
                (self.there)(CaptureKind::Microphone, startup.probed()->0),
            ),
            StartStage::DefaultMicrophone => StartReply::DefaultDevice(self.default_microphone),
            StartStage::ProbeSystem => StartReply::Probed(
                (self.there)(CaptureKind::System, startup.probed()->0),
            ),
            StartStage::DefaultSystem => StartReply::DefaultDevice(self.default_system),
            StartStage::ReadClock => StartReply::Time(self.time),
            StartStage::StartManager => StartReply::Started((self.started)(planned(startup))),
            StartStage::StartTranscription => StartReply::Task(self.task),
            StartStage::Listen => StartReply::Listening(self.listener),
            _ => StartReply::Done,
        }
    }
}

/// The startup and the session once everything is done that the startup says.
pub open spec fn outcome<M, T, L>(
    startup: Startup,
    session: RecordingSession<M, T, L>,
    around: Surroundings<M, T, L>,
) -> (Startup, RecordingSession<M, T, L>)
    decreases 15 - place(startup.stage, startup.by_request),
{
    if startup.stage is Finished {
        (startup, session)
    } else {
        let reply = around.reply(startup);
        proof {
            startup_goes_forward(startup, reply);
        }
        outcome(
            startup.after(reply),
            session_after(session, startup.stage, reply),
            around,
        )
    }
}

/// The name of the device that is asked for: by the caller, or by the preferences.
pub open spec fn asked_for(
    by_request: bool,
    requested: Option<String>,
    preferred: Option<String>,
) -> Option<String> {
    if by_request {
        requested
    } else {
        preferred
    }
}

/// The microphone that the preferences name.
pub open spec fn preferred_microphone(preferences: Option<RecordingPreferences>) -> Option<String> {
    match preferences {
        Some(loaded) => loaded.preferred_mic_device,
        None => None,
    }
}

/// The system audio device that the preferences name.
pub open spec fn preferred_system(preferences: Option<RecordingPreferences>) -> Option<String> {
    match preferences {
        Some(loaded) => loaded.preferred_system_device,
        None => None,
    }
}

/// A name is given that stands for a device which can be had for a use.
pub open spec fn can_be_had<M, T, L>(
    around: Surroundings<M, T, L>,
    kind: CaptureKind,
    name: Option<String>,
) -> bool {
    name is Some && parsed(name->0@) is Ok && (around.there)(kind, parsed(name->0@)->Ok_0)
}

/// A name is given that stands for no device.
pub open spec fn is_unreadable(name: Option<String>) -> bool {
    name is Some && parsed(name->0@) is Err
}

// ---------------------------------------------------------------------------
// Lemmas
// ---------------------------------------------------------------------------

proof fn lemma_from_manager<M, T, L>(
    startup: Startup,
    session: RecordingSession<M, T, L>,
    around: Surroundings<M, T, L>,
)
    requires
        startup.stage is StartManager,
    ensures
        match (around.started)(planned(startup)) {
            Ok(manager) => outcome(startup, session, around) == (
                Startup { stage: StartStage::Finished, ..startup },
                RecordingSession {
                    is_recording: true,
                    is_stopping: session.is_stopping,
                    manager: Some(manager),
                    transcription_task: Some(around.task),
                    transcript_listener: Some(around.listener),
                },
            ),
            Err(why) => outcome(startup, session, around) == (
                Startup {
                    stage: StartStage::Finished,
                    failure: Some(StartFailure::Manager(why)),
                    ..startup
                },
                session,
            ),
        },
{
    reveal_with_fuel(outcome, 9);
}

/// A startup that goes on to name the meeting, once it is named.
spec fn named<M, T, L>(startup: Startup, around: Surroundings<M, T, L>) -> Startup {
    Startup {
        stage: StartStage::StartManager,
        time: if startup.meeting_name is Some {
            startup.time
        } else {
            Some(around.time)
        },
        ..startup
    }
}

proof fn lemma_from_naming<M, T, L>(
    startup: Startup,
    session: RecordingSession<M, T, L>,
    around: Surroundings<M, T, L>,
)
    ensures
        outcome(startup.naming(), session, around) == outcome(
            named(startup, around),
            session,
            around,
        ),
{
    reveal_with_fuel(outcome, 2);
}

/// A startup that has its devices, once it is ready for the manager.
spec fn ready<M, T, L>(startup: Startup, around: Surroundings<M, T, L>) -> Startup {
    match around.preferences {
        Some(loaded) => if startup.by_request {
            named(
                Startup {
                    auto_save: loaded.auto_save,
                    folder: Some(loaded.save_folder),
                    ..startup
                },
                around,
            )
        } else {
            named(startup, around)
        },
        None => named(startup, around),
    }
}

proof fn lemma_from_devices<M, T, L>(
    startup: Startup,
    session: RecordingSession<M, T, L>,
    around: Surroundings<M, T, L>,
)
    ensures
        outcome(startup.with_devices(), session, around) == outcome(
            ready(startup, around),
            session,
            around,
        ),
{
    if startup.by_request {
        let asking = startup.with_devices();
        let reply = around.reply(asking);
        let loaded = match around.preferences {
            Some(loaded) => Startup {
                auto_save: loaded.auto_save,
                folder: Some(loaded.save_folder),
                ..asking
            },
            None => asking,
        };
        assert(asking.after(reply) == loaded.naming());
        reveal_with_fuel(outcome, 2);
        lemma_from_naming(loaded, session, around);
        assert(named(loaded, around) == ready(startup, around));
    } else {
        lemma_from_naming(startup, session, around);
    }
}

proof fn lemma_from_system<M, T, L>(
    startup: Startup,
    session: RecordingSession<M, T, L>,
    around: Surroundings<M, T, L>,
)
    requires
        startup.system is Undecided,
        startup.failure is None,
    ensures
        ({
            let end = outcome(startup.choosing_system(), session, around);
            let refused = startup.by_request && is_unreadable(startup.system_name) && !(
            startup.platform is MacOs);
            if refused {
                end == (startup.failed(StartFailure::InvalidSystemDevice), session)
            } else {
                exists|with: Startup|
                    {
                        &&& end == #[trigger] outcome(ready(with, around), session, around)
                        &&& with == (Startup { stage: with.stage, system: with.system, ..startup })
                        &&& chosen(with.system, with.system_name) == if !(
                        startup.platform is MacOs) && can_be_had(
                            around,
                            CaptureKind::System,
                            startup.system_name,
                        ) {
                            Some(parsed(startup.system_name->0@)->Ok_0)
                        } else {
                            match around.default_system {
                                Ok(device) => Some(device@),
                                Err(_) => None,
                            }
                        }
                    }
            }
        }),
{
    let asking = startup.choosing_system();
    reveal_with_fuel(outcome, 3);
    if asking.stage is Finished {
    } else if asking.stage is ProbeSystem && (around.there)(
        CaptureKind::System,
        asking.probed()->0,
    ) {
        let with = Startup { system: crate::start::Choice::Named, ..asking };
        assert(asking.after(around.reply(asking)) == with.with_devices());
        lemma_from_devices(with, session, around);
    } else {
        let plain = Startup { stage: StartStage::DefaultSystem, ..asking };
        let with = match around.default_system {
            Ok(device) => Startup { system: crate::start::Choice::Default(device), ..plain },
            Err(_) => Startup { system: crate::start::Choice::Nothing, ..plain },
        };
        assert(plain.after(around.reply(plain)) == with.with_devices());
        assert(outcome(plain, session, around) == outcome(with.with_devices(), session, around));
        lemma_from_devices(with, session, around);
    }
}

proof fn lemma_from_microphone<M, T, L>(
    startup: Startup,
    session: RecordingSession<M, T, L>,
    around: Surroundings<M, T, L>,
)
    requires
        startup.microphone is Undecided,
        startup.failure is None,
    ensures
        ({
            let end = outcome(startup.choosing_microphone(), session, around);
            let had = can_be_had(around, CaptureKind::Microphone, startup.microphone_name);
            if startup.by_request && is_unreadable(startup.microphone_name) {
                end == (startup.failed(StartFailure::InvalidMicrophone), session)
            } else if !had && around.default_microphone is Err {
                &&& end.0.stage is Finished
                &&& end.0.failure == Some(
                    StartFailure::NoMicrophone(around.default_microphone->Err_0),
                )
                &&& end.1 == session
            } else {
                exists|with: Startup|
                    {
                        &&& end == outcome(#[trigger] with.choosing_system(), session, around)
                        &&& with == (Startup {
                            stage: with.stage,
                            microphone: with.microphone,
                            ..startup
                        })
                        &&& chosen(with.microphone, with.microphone_name) == Some(
                            if had {
                                parsed(startup.microphone_name->0@)->Ok_0
                            } else {
                                around.default_microphone->Ok_0@
                            },
                        )
                    }
            }
        }),
{
    let asking = startup.choosing_microphone();
    reveal_with_fuel(outcome, 3);
    if asking.stage is Finished {
    } else if asking.stage is ProbeMicrophone && (around.there)(
        CaptureKind::Microphone,
        asking.probed()->0,
    ) {
        let with = Startup { microphone: crate::start::Choice::Named, ..asking };
        assert(asking.after(around.reply(asking)) == with.choosing_system());
    } else {
        let plain = Startup { stage: StartStage::DefaultMicrophone, ..asking };
        if let Ok(device) = around.default_microphone {
            let with = Startup { microphone: crate::start::Choice::Default(device), ..plain };
            assert(plain.after(around.reply(plain)) == with.choosing_system());
        }
    }
}

// ---------------------------------------------------------------------------
// Laws
// ---------------------------------------------------------------------------

/// What a recording is to be made of. A device that is asked for by name is taken
/// where the name stands for a device that can be had, and the default device
/// otherwise; on macOS system audio is always the default output. The meeting goes by
/// the given name, or by the time.
pub open spec fn recording_asked_for<M, T, L>(
    platform: Platform,
    microphone: Option<String>,
    system: Option<String>,
    meeting: Option<String>,
    around: Surroundings<M, T, L>,
) -> PlanModel {
    PlanModel {
        microphone: if can_be_had(around, CaptureKind::Microphone, microphone) {
            Some(parsed(microphone->0@)->Ok_0)
        } else {
            match around.default_microphone {
                Ok(device) => Some(device@),
                Err(_) => None,
            }
        },
        system_audio: if platform != Platform::MacOs && can_be_had(
            around,
            CaptureKind::System,
            system,
        ) {
            Some(parsed(system->0@)->Ok_0)
        } else {
            match around.default_system {
                Ok(device) => Some(device@),
                Err(_) => None,
            }
        },
        auto_save: around.preferences is Some ==> around.preferences->0.auto_save,
        folder: match around.preferences {
            Some(loaded) => Some(loaded.save_folder),
            None => None,
        },
        meeting_name: Some(
            match meeting {
                Some(name) => name@,
                None => "Meeting "@ + around.time@.timestamp(),
            },
        ),
    }
}

/// Why no recording starts, in this order: one is under way already, the model is not
/// ready, the caller's microphone has a name that cannot be read, there is no
/// microphone, the caller's system audio has a name that cannot be read (which does not
/// matter on macOS), or the manager does not record what it is asked to.
pub open spec fn reason_not_to_start<M, T, L>(
    is_recording: bool,
    platform: Platform,
    by_request: bool,
    microphone: Option<String>,
    system: Option<String>,
    meeting: Option<String>,
    around: Surroundings<M, T, L>,
) -> Option<StartFailure> {
    let plan = recording_asked_for(platform, microphone, system, meeting, around);
    if is_recording {
        Some(StartFailure::AlreadyRecording)
    } else if around.model is Err {
        Some(StartFailure::Model(around.model->Err_0))
    } else if by_request && is_unreadable(microphone) {
        Some(StartFailure::InvalidMicrophone)
    } else if plan.microphone is None {
        Some(StartFailure::NoMicrophone(around.default_microphone->Err_0))
    } else if by_request && is_unreadable(system) && platform != Platform::MacOs {
        Some(StartFailure::InvalidSystemDevice)
    } else if (around.started)(plan) is Err {
        Some(StartFailure::Manager((around.started)(plan)->Err_0))
    } else {
        None
    }
}

proof fn lemma_from_choosing<M, T, L>(
    startup: Startup,
    mic: Option<String>,
    sys: Option<String>,
    session: RecordingSession<M, T, L>,
    around: Surroundings<M, T, L>,
)
    requires
        startup.microphone is Undecided,
        startup.system is Undecided,
        startup.failure is None,
        startup.microphone_name == mic,
        startup.system_name == sys,
        match around.preferences {
            Some(loaded) => startup.by_request || (startup.auto_save == loaded.auto_save
                && startup.folder == Some(loaded.save_folder)),
            None => startup.auto_save && startup.folder is None,
        },
        around.model is Ok,
    ensures
        ({
            let (end, left) = outcome(startup.choosing_microphone(), session, around);
            let plan = recording_asked_for(
                startup.platform,
                mic,
                sys,
                startup.meeting_name,
                around,
            );
            let reason = reason_not_to_start(
                false,
                startup.platform,
                startup.by_request,
                mic,
                sys,
                startup.meeting_name,
                around,
            );
            &&& end.stage is Finished
            &&& end.failure == reason
            &&& reason is Some ==> left == session
            &&& reason is None ==> {
                &&& left.is_recording
                &&& left.is_stopping == session.is_stopping
                &&& (around.started)(plan) == Ok::<M, String>(left.manager->0)
                &&& left.manager is Some
                &&& left.transcription_task == Some(around.task)
                &&& left.transcript_listener == Some(around.listener)
            }
        }),
{
    let plan = recording_asked_for(startup.platform, mic, sys, startup.meeting_name, around);
    lemma_from_microphone(startup, session, around);
    if (startup.by_request && is_unreadable(mic)) || plan.microphone is None {
    } else {
        let first = choose|with: Startup|
            {
                &&& outcome(startup.choosing_microphone(), session, around) == outcome(
                    #[trigger] with.choosing_system(),
                    session,
                    around,
                )
                &&& with == (Startup {
                    stage: with.stage,
                    microphone: with.microphone,
                    ..startup
                })
                &&& chosen(with.microphone, with.microphone_name) == plan.microphone
            };
        lemma_from_system(first, session, around);
        if startup.by_request && is_unreadable(sys) && !(startup.platform is MacOs) {
        } else {
            let second = choose|with: Startup|
                {
                    &&& outcome(first.choosing_system(), session, around) == #[trigger] outcome(
                        ready(with, around),
                        session,
                        around,
                    )
                    &&& with == (Startup { stage: with.stage, system: with.system, ..first })
                    &&& chosen(with.system, with.system_name) == plan.system_audio
                };
            let last = ready(second, around);
            lemma_from_manager(last, session, around);
            assert(planned(last) =~= plan);
        }
    }
}

/// A startup records with exactly the devices, the name and the folder that are asked
/// for, and ends without a recording for exactly the reasons there are. The names in
/// force are the caller's where the caller asks for devices, and those of the
/// preferences otherwise. A session in which no recording starts stays as it was.
pub proof fn startup_records_what_is_asked_for<M, T, L>(
    session: RecordingSession<M, T, L>,
    platform: Platform,
    by_request: bool,
    microphone: Option<String>,
    system: Option<String>,
    meeting: Option<String>,
    around: Surroundings<M, T, L>,
)
    requires
        by_request || (microphone is None && system is None),
    ensures
        ({
            let begin = begun(
                session.is_recording,
                platform,
                by_request,
                microphone,
                system,
                meeting,
            );
            let (end, left) = outcome(begin, session, around);
            let mic = asked_for(
                by_request,
                microphone,
                preferred_microphone(around.preferences),
            );
            let sys = asked_for(by_request, system, preferred_system(around.preferences));
            let plan = recording_asked_for(platform, mic, sys, meeting, around);
            let reason = reason_not_to_start(
                session.is_recording,
                platform,
                by_request,
                mic,
                sys,
                meeting,
                around,
            );
            &&& end.stage is Finished
            &&& end.failure == reason
            &&& reason is Some ==> left == session
            &&& reason is None ==> {
                &&& left.is_recording
                &&& left.is_stopping == session.is_stopping
                &&& (around.started)(plan) == Ok::<M, String>(left.manager->0)
                &&& left.manager is Some
                &&& left.transcription_task == Some(around.task)
                &&& left.transcript_listener == Some(around.listener)
            }
        }),
{
    let begin = begun(session.is_recording, platform, by_request, microphone, system, meeting);
    let mic = asked_for(by_request, microphone, preferred_microphone(around.preferences));
    let sys = asked_for(by_request, system, preferred_system(around.preferences));
    if session.is_recording {
    } else if around.model is Err {
        reveal_with_fuel(outcome, 3);
    } else {
        let loading = Startup { stage: StartStage::LoadPreferences, ..begin };
        let choosing = if by_request {
            begin
        } else {
            match around.preferences {
                Some(loaded) => Startup {
                    auto_save: loaded.auto_save,
                    folder: Some(loaded.save_folder),
                    microphone_name: loaded.preferred_mic_device,
                    system_name: loaded.preferred_system_device,
                    ..loading
                },
                None => loading,
            }
        };
        assert(outcome(begin, session, around) == outcome(
            choosing.choosing_microphone(),
            session,
            around,
        )) by {
            reveal_with_fuel(outcome, 3);
            if by_request {
                assert(begin.after(around.reply(begin)) == choosing.choosing_microphone());
            } else {
                assert(begin.after(around.reply(begin)) == loading);
                assert(loading.after(around.reply(loading)) == choosing.choosing_microphone());
            }
        }
        lemma_from_choosing(choosing, mic, sys, session, around);
    }
}

/// What is told of a startup that failed ends with the reason that was given for it,
/// and names the microphone or the system audio that was asked for where that is what
/// failed.
pub proof fn failure_tells_its_reason(startup: Startup)
    ensures
        startup.failure is None ==> startup.failure_text() is None,
        match startup.failure {
            Some(StartFailure::Model(why)) => startup.failure_text() == Some(why@),
            Some(StartFailure::Manager(why)) => startup.failure_text() is Some
                && why@.is_suffix_of(startup.failure_text()->0),
            Some(StartFailure::NoMicrophone(why)) => {
                &&& startup.failure_text() is Some
                &&& why@.is_suffix_of(startup.failure_text()->0)
                &&& startup.microphone_name is Some ==> occurs_in(
                    startup.failure_text()->0,
                    startup.microphone_name->0@,
                )
            },
            Some(StartFailure::InvalidMicrophone) => is_unreadable(startup.microphone_name) ==> {
                &&& startup.failure_text() is Some
                &&& occurs_in(startup.failure_text()->0, startup.microphone_name->0@)
                &&& parsed(startup.microphone_name->0@)->Err_0.text().is_suffix_of(
                    startup.failure_text()->0,
                )
            },
            Some(StartFailure::InvalidSystemDevice) => is_unreadable(startup.system_name) ==> {
                &&& startup.failure_text() is Some
                &&& occurs_in(startup.failure_text()->0, startup.system_name->0@)
                &&& parsed(startup.system_name->0@)->Err_0.text().is_suffix_of(
                    startup.failure_text()->0,
                )
            },
            _ => true,
        },
{
    match startup.failure {
        Some(StartFailure::Manager(why)) => {
            lemma_parts("Failed to start recording: "@, Seq::empty(), Seq::empty(), why@);
            assert("Failed to start recording: "@ + why@ =~= "Failed to start recording: "@
                + Seq::empty() + Seq::empty() + why@);
        },
        Some(StartFailure::NoMicrophone(why)) => {
            let text = startup.failure_text()->0;
            match startup.microphone_name {
                Some(name) => {
                    let (before, between) = if startup.by_request {
                        (
                            "Requested microphone '"@,
                            "' is unavailable and no default microphone exists: "@,
                        )
                    } else if parsed(name@) is Ok {
                        (
                            "No microphone device available. Preferred device '"@,
                            "' was not found, and the default microphone is unavailable: "@,
                        )
                    } else {
                        (
                            "No microphone device available. Preferred device '"@,
                            "' not found, and default microphone unavailable: "@,
                        )
                    };
                    lemma_parts(before, name@, between, why@);
                },
                None => {
                    assert(text.subrange(text.len() - why@.len(), text.len() as int) =~= why@);
                },
            }
        },
        Some(StartFailure::InvalidMicrophone) => {
            if is_unreadable(startup.microphone_name) {
                let name = startup.microphone_name->0@;
                lemma_parts(
                    "Invalid microphone device '"@,
                    name,
                    "': "@,
                    parsed(name)->Err_0.text(),
                );
            }
        },
        Some(StartFailure::InvalidSystemDevice) => {
            if is_unreadable(startup.system_name) {
                let name = startup.system_name->0@;
                lemma_parts("Invalid system device '"@, name, "': "@, parsed(name)->Err_0.text());
            }
        },
        _ => {},
    }
}

proof fn lemma_parts(before: Seq<char>, name: Seq<char>, between: Seq<char>, why: Seq<char>)
    ensures
        occurs_in(before + name + between + why, name),
        why.is_suffix_of(before + name + between + why),
{
    let text = before + name + between + why;
    let at = before.len() as int;
    assert(text.subrange(at, at + name.len()) =~= name);
    assert(occurs_at(text, name, at));
    assert(text.subrange(text.len() - why.len(), text.len() as int) =~= why);
}

} // verus!
