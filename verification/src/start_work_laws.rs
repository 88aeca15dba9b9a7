//! What is done on the way of a startup, and in which order.

use crate::device::{parsed, DeviceModel, Platform};
use crate::start::{
    begun, place, startup_goes_forward, Choice, RecordingPreferences, StartStage, Startup,
};
use crate::start_laws::{
    asked_for, can_be_had, is_unreadable, planned, preferred_microphone, preferred_system,
    recording_asked_for, PlanModel, Surroundings,
};
use crate::stream::CaptureKind;
use vstd::prelude::*;

verus! {

/// A piece of work, with what it is done on.
pub enum Work {
    ValidateModel,
    LoadPreferences,
    /// Find out whether a device can be had for a use.
    Probe(CaptureKind, DeviceModel),
    FindDefault(CaptureKind),
    ReadClock,
    /// Have a manager record as planned.
    Record(PlanModel),
    StartDiarization,
    ResetSpeech,
    Transcribe,
    Listen,
    /// Send the event of a name.
    Send(Option<Seq<char>>),
    UpdateTray,
    Nothing,
}

/// The work that the stage of a startup asks for.
pub open spec fn work_of(startup: Startup) -> Work {
    match startup.stage {
        StartStage::ValidateModel => Work::ValidateModel,
        StartStage::LoadPreferences => Work::LoadPreferences,
        StartStage::ProbeMicrophone => Work::Probe(CaptureKind::Microphone, startup.probed()->0),
        StartStage::DefaultMicrophone => Work::FindDefault(CaptureKind::Microphone),
        StartStage::ProbeSystem => Work::Probe(CaptureKind::System, startup.probed()->0),
        StartStage::DefaultSystem => Work::FindDefault(CaptureKind::System),
        StartStage::ReadClock => Work::ReadClock,
        StartStage::StartManager => Work::Record(planned(startup)),
        StartStage::StartDiarization => Work::StartDiarization,
        StartStage::ResetSpeech => Work::ResetSpeech,
        StartStage::StartTranscription => Work::Transcribe,
        StartStage::Listen => Work::Listen,
        StartStage::TellModel => Work::Send(startup.event_name()),
        StartStage::TellStarted => Work::Send(startup.event_name()),
        StartStage::UpdateTray => Work::UpdateTray,
        StartStage::Finished => Work::Nothing,
    }
}

/// The work of a startup until its end.
#[verifier::opaque]
pub open spec fn work<M, T, L>(startup: Startup, around: Surroundings<M, T, L>) -> Seq<Work>
    decreases 15 - place(startup.stage, startup.by_request),
{
    if startup.stage is Finished {
        Seq::empty()
    } else {
        let reply = around.reply(startup);
        proof {
            startup_goes_forward(startup, reply);
        }
        seq![work_of(startup)] + work(startup.after(reply), around)
    }
}

/// Finding a device for a use: the one of the name, where the name stands for one, and
/// the default one where that cannot be had.
pub open spec fn work_to_find<M, T, L>(
    kind: CaptureKind,
    name: Option<String>,
    around: Surroundings<M, T, L>,
) -> Seq<Work> {
    if name is Some && parsed(name->0@) is Ok {
        let device = parsed(name->0@)->Ok_0;
        if (around.there)(kind, device) {
            seq![Work::Probe(kind, device)]
        } else {
            seq![Work::Probe(kind, device), Work::FindDefault(kind)]
        }
    } else {
        seq![Work::FindDefault(kind)]
    }
}

/// Recording as planned, and what follows where the manager records.
pub open spec fn work_to_record<M, T, L>(
    plan: PlanModel,
    around: Surroundings<M, T, L>,
) -> Seq<Work> {
    if (around.started)(plan) is Ok {
        seq![
            Work::Record(plan),
            Work::StartDiarization,
            Work::ResetSpeech,
            Work::Transcribe,
            Work::Listen,
            Work::Send(Some("recording-started"@)),
            Work::UpdateTray,
        ]
    } else {
        seq![Work::Record(plan)]
    }
}

/// A piece of work, where there is need for it.
pub open spec fn only_if(needed: bool, work: Work) -> Seq<Work> {
    if needed {
        seq![work]
    } else {
        Seq::empty()
    }
}

/// What is done once both devices are chosen.
pub open spec fn work_with_devices<M, T, L>(
    by_request: bool,
    meeting: Option<String>,
    plan: PlanModel,
    around: Surroundings<M, T, L>,
) -> Seq<Work> {
    only_if(by_request, Work::LoadPreferences) + only_if(meeting is None, Work::ReadClock)
        + work_to_record(plan, around)
}

/// What is done from the choice of system audio on.
pub open spec fn work_with_microphone<M, T, L>(
    platform: Platform,
    by_request: bool,
    system: Option<String>,
    meeting: Option<String>,
    plan: PlanModel,
    around: Surroundings<M, T, L>,
) -> Seq<Work> {
    if by_request && is_unreadable(system) && platform != Platform::MacOs {
        Seq::empty()
    } else {
        (if platform == Platform::MacOs {
            seq![Work::FindDefault(CaptureKind::System)]
        } else {
            work_to_find(CaptureKind::System, system, around)
        }) + work_with_devices(by_request, meeting, plan, around)
    }
}

/// What is done from the choice of the microphone on.
pub open spec fn work_with_names<M, T, L>(
    platform: Platform,
    by_request: bool,
    microphone: Option<String>,
    system: Option<String>,
    meeting: Option<String>,
    around: Surroundings<M, T, L>,
) -> Seq<Work> {
    let plan = recording_asked_for(platform, microphone, system, meeting, around);
    if by_request && is_unreadable(microphone) {
        Seq::empty()
    } else if plan.microphone is None {
        work_to_find(CaptureKind::Microphone, microphone, around)
    } else {
        work_to_find(CaptureKind::Microphone, microphone, around) + work_with_microphone(
            platform,
            by_request,
            system,
            meeting,
            plan,
            around,
        )
    }
}

// ---------------------------------------------------------------------------
// Lemmas
// ---------------------------------------------------------------------------

proof fn lemma_step<M, T, L>(startup: Startup, around: Surroundings<M, T, L>, next: Startup)
    requires
        !(startup.stage is Finished),
        next == startup.after(around.reply(startup)),
    ensures
        work(startup, around) == seq![work_of(startup)] + work(next, around),
{
    reveal(work);
}

proof fn lemma_done<M, T, L>(startup: Startup, around: Surroundings<M, T, L>)
    requires
        startup.stage is Finished,
    ensures
        work(startup, around) == Seq::<Work>::empty(),
{
    reveal(work);
}

proof fn lemma_from_manager<M, T, L>(startup: Startup, around: Surroundings<M, T, L>)
    requires
        startup.stage is StartManager,
    ensures
        work(startup, around) == work_to_record(planned(startup), around),
{
    let next = startup.after(around.reply(startup));
    lemma_step(startup, around, next);
    if (around.started)(planned(startup)) is Ok {
        let reset = Startup { stage: StartStage::ResetSpeech, ..startup };
        let transcribe = Startup { stage: StartStage::StartTranscription, ..startup };
        let listen = Startup { stage: StartStage::Listen, ..startup };
        let tell = Startup { stage: StartStage::TellStarted, ..startup };
        let tray = Startup { stage: StartStage::UpdateTray, ..startup };
        let end = Startup { stage: StartStage::Finished, ..startup };
        lemma_step(next, around, reset);
        lemma_step(reset, around, transcribe);
        lemma_step(transcribe, around, listen);
        lemma_step(listen, around, tell);
        lemma_step(tell, around, tray);
        lemma_step(tray, around, end);
        lemma_done(end, around);
    } else {
        lemma_done(next, around);
    }
    assert(work(startup, around) =~= work_to_record(planned(startup), around));
}

/// The plan once the meeting is named.
spec fn plan_named<M, T, L>(startup: Startup, around: Surroundings<M, T, L>) -> PlanModel {
    PlanModel {
        meeting_name: Some(
            match startup.meeting_name {
                Some(name) => name@,
                None => "Meeting "@ + around.time@.timestamp(),
            },
        ),
        ..planned(startup)
    }
}

proof fn lemma_from_naming<M, T, L>(startup: Startup, around: Surroundings<M, T, L>)
    ensures
        work(startup.naming(), around) == only_if(
            startup.meeting_name is None,
            Work::ReadClock,
        ) + work_to_record(plan_named(startup, around), around),
{
    let asking = startup.naming();
    if startup.meeting_name is Some {
        lemma_from_manager(asking, around);
        assert(planned(asking) =~= plan_named(startup, around));
    } else {
        let next = asking.after(around.reply(asking));
        lemma_step(asking, around, next);
        lemma_from_manager(next, around);
        assert(planned(next) =~= plan_named(startup, around));
    }
    assert(work(asking, around) =~= only_if(startup.meeting_name is None, Work::ReadClock)
        + work_to_record(plan_named(startup, around), around));
}

/// The startup with what the preferences say of saving.
spec fn with_folder(startup: Startup, preferences: Option<RecordingPreferences>) -> Startup {
    match preferences {
        Some(loaded) => Startup {
            auto_save: loaded.auto_save,
            folder: Some(loaded.save_folder),
            ..startup
        },
        None => startup,
    }
}

proof fn lemma_from_devices<M, T, L>(
    startup: Startup,
    plan: PlanModel,
    around: Surroundings<M, T, L>,
)
    requires
        plan == plan_named(
            if startup.by_request {
                with_folder(startup, around.preferences)
            } else {
                startup
            },
            around,
        ),
    ensures
        work(startup.with_devices(), around) == work_with_devices(
            startup.by_request,
            startup.meeting_name,
            plan,
            around,
        ),
{
    let asking = startup.with_devices();
    if startup.by_request {
        let loaded = with_folder(asking, around.preferences);
        assert(asking.after(around.reply(asking)) == loaded.naming());
        lemma_step(asking, around, loaded.naming());
        lemma_from_naming(loaded, around);
        assert(plan_named(loaded, around) =~= plan);
    } else {
        lemma_from_naming(startup, around);
    }
    assert(work(asking, around) =~= work_with_devices(
        startup.by_request,
        startup.meeting_name,
        plan,
        around,
    ));
}

/// The startup has made no plan yet but for what it has of the preferences.
spec fn is_ready<M, T, L>(startup: Startup, around: Surroundings<M, T, L>) -> bool {
    &&& startup.failure is None
    &&& startup.system is Undecided
    &&& match around.preferences {
        Some(loaded) => startup.by_request || (startup.auto_save == loaded.auto_save
            && startup.folder == Some(loaded.save_folder)),
        None => startup.auto_save && startup.folder is None,
    }
}

/// The plan of a startup is the one to come of it.
spec fn is_planned<M, T, L>(
    startup: Startup,
    plan: PlanModel,
    around: Surroundings<M, T, L>,
) -> bool {
    &&& is_ready(startup, around)
    &&& plan == recording_asked_for(
        startup.platform,
        startup.microphone_name,
        startup.system_name,
        startup.meeting_name,
        around,
    )
    &&& planned(startup).microphone == plan.microphone
}

proof fn lemma_from_named_system<M, T, L>(
    startup: Startup,
    plan: PlanModel,
    around: Surroundings<M, T, L>,
)
    requires
        startup.stage is ProbeSystem,
        startup.platform != Platform::MacOs,
        is_planned(startup, plan, around),
        can_be_had(around, CaptureKind::System, startup.system_name),
    ensures
        work(startup, around) == seq![
            Work::Probe(CaptureKind::System, parsed(startup.system_name->0@)->Ok_0),
        ] + work_with_devices(startup.by_request, startup.meeting_name, plan, around),
{
    let with = Startup { system: Choice::Named, ..startup };
    assert(startup.after(around.reply(startup)) == with.with_devices());
    lemma_step(startup, around, with.with_devices());
    lemma_plan(with, plan, around);
    lemma_from_devices(with, plan, around);
}

proof fn lemma_from_default_system<M, T, L>(
    startup: Startup,
    plan: PlanModel,
    around: Surroundings<M, T, L>,
)
    requires
        startup.stage is DefaultSystem,
        is_planned(startup, plan, around),
        startup.platform != Platform::MacOs ==> !can_be_had(
            around,
            CaptureKind::System,
            startup.system_name,
        ),
    ensures
        work(startup, around) == seq![Work::FindDefault(CaptureKind::System)] + work_with_devices(
            startup.by_request,
            startup.meeting_name,
            plan,
            around,
        ),
{
    let with = match around.default_system {
        Ok(device) => Startup { system: Choice::Default(device), ..startup },
        Err(_) => Startup { system: Choice::Nothing, ..startup },
    };
    assert(startup.after(around.reply(startup)) == with.with_devices());
    lemma_step(startup, around, with.with_devices());
    lemma_plan(with, plan, around);
    lemma_from_devices(with, plan, around);
}

proof fn lemma_from_system<M, T, L>(
    startup: Startup,
    plan: PlanModel,
    around: Surroundings<M, T, L>,
)
    requires
        is_planned(startup, plan, around),
    ensures
        work(startup.choosing_system(), around) == work_with_microphone(
            startup.platform,
            startup.by_request,
            startup.system_name,
            startup.meeting_name,
            plan,
            around,
        ),
{
    let asking = startup.choosing_system();
    let rest = work_with_devices(startup.by_request, startup.meeting_name, plan, around);
    let name = startup.system_name;
    if asking.stage is Finished {
        lemma_done(asking, around);
    } else if asking.stage is ProbeSystem {
        if can_be_had(around, CaptureKind::System, name) {
            lemma_from_named_system(asking, plan, around);
        } else {
            let plain = Startup { stage: StartStage::DefaultSystem, ..asking };
            lemma_step(asking, around, plain);
            lemma_from_default_system(plain, plan, around);
            let probe = Work::Probe(CaptureKind::System, parsed(name->0@)->Ok_0);
            let find = Work::FindDefault(CaptureKind::System);
            assert(seq![probe] + (seq![find] + rest) =~= seq![probe, find] + rest);
        }
    } else {
        lemma_from_default_system(asking, plan, around);
    }
}

proof fn lemma_plan<M, T, L>(with: Startup, plan: PlanModel, around: Surroundings<M, T, L>)
    requires
        plan == recording_asked_for(
            with.platform,
            with.microphone_name,
            with.system_name,
            with.meeting_name,
            around,
        ),
        planned(with).microphone == plan.microphone,
        planned(with).system_audio == plan.system_audio,
        match around.preferences {
            Some(loaded) => with.by_request || (with.auto_save == loaded.auto_save && with.folder
                == Some(loaded.save_folder)),
            None => with.auto_save && with.folder is None,
        },
    ensures
        plan == plan_named(
            if with.by_request {
                with_folder(with, around.preferences)
            } else {
                with
            },
            around,
        ),
{
    assert(plan =~= plan_named(
        if with.by_request {
            with_folder(with, around.preferences)
        } else {
            with
        },
        around,
    ));
}

proof fn lemma_from_microphone<M, T, L>(startup: Startup, around: Surroundings<M, T, L>)
    requires
        is_ready(startup, around),
        startup.microphone is Undecided,
    ensures
        work(startup.choosing_microphone(), around) == work_with_names(
            startup.platform,
            startup.by_request,
            startup.microphone_name,
            startup.system_name,
            startup.meeting_name,
            around,
        ),
{
    let asking = startup.choosing_microphone();
    let plan = recording_asked_for(
        startup.platform,
        startup.microphone_name,
        startup.system_name,
        startup.meeting_name,
        around,
    );
    if asking.stage is Finished {
        lemma_done(asking, around);
    } else if asking.stage is ProbeMicrophone && (around.there)(
        CaptureKind::Microphone,
        asking.probed()->0,
    ) {
        let with = Startup { microphone: Choice::Named, ..asking };
        assert(asking.after(around.reply(asking)) == with.choosing_system());
        lemma_step(asking, around, with.choosing_system());
        lemma_from_system(with, plan, around);
    } else {
        let plain = Startup { stage: StartStage::DefaultMicrophone, ..asking };
        let next = plain.after(around.reply(plain));
        lemma_step(plain, around, next);
        if let Ok(device) = around.default_microphone {
            let with = Startup { microphone: Choice::Default(device), ..plain };
            assert(next == with.choosing_system());
            lemma_from_system(with, plan, around);
        } else {
            lemma_done(next, around);
        }
        if asking.stage is ProbeMicrophone {
            lemma_step(asking, around, plain);
        }
    }
    assert(work(asking, around) =~= work_with_names(
        startup.platform,
        startup.by_request,
        startup.microphone_name,
        startup.system_name,
        startup.meeting_name,
        around,
    ));
}

// ---------------------------------------------------------------------------
// Laws
// ---------------------------------------------------------------------------

/// A startup asks for everything that it needs, on the devices that are asked for and in
/// order: the model first, then the microphone, then system audio, and once the manager
/// records, everything that goes with a recording; that it started is told last. A model
/// that is not ready is told, and nothing else is done then. While a recording is under
/// way, nothing is done at all.
pub proof fn startup_does_everything_in_order<M, T, L>(
    is_recording: bool,
    platform: Platform,
    by_request: bool,
    microphone: Option<String>,
    system: Option<String>,
    meeting: Option<String>,
    around: Surroundings<M, T, L>,
)
    requires
        by_request || (microphone is None && system is None),
    ensures
        ({
            let begin = begun(is_recording, platform, by_request, microphone, system, meeting);
            work(begin, around) == if is_recording {
                Seq::<Work>::empty()
            } else if around.model is Err {
                seq![Work::ValidateModel, Work::Send(Some("transcription-error"@))]
            } else {
                seq![Work::ValidateModel] + only_if(!by_request, Work::LoadPreferences)
                    + work_with_names(
                    platform,
                    by_request,
                    asked_for(by_request, microphone, preferred_microphone(around.preferences)),
                    asked_for(by_request, system, preferred_system(around.preferences)),
                    meeting,
                    around,
                )
            }
        }),
{
    let begin = begun(is_recording, platform, by_request, microphone, system, meeting);
    if is_recording {
        lemma_done(begin, around);
    } else if around.model is Err {
        let telling = begin.after(around.reply(begin));
        let end = telling.after(around.reply(telling));
        lemma_step(begin, around, telling);
        lemma_step(telling, around, end);
        lemma_done(end, around);
        assert(work(begin, around) =~= seq![
            Work::ValidateModel,
            Work::Send(Some("transcription-error"@)),
        ]);
    } else {
        let loading = Startup { stage: StartStage::LoadPreferences, ..begin };
        let choosing = if by_request {
            begin
        } else {
            match around.preferences {
                Some(loaded) => Startup {
                    auto_save: loaded.auto_save,
                    folder: Some(loaded.save_folder),
                    microphone_name: loaded.preferred_mic_device,
                    system_name: loaded.preferred_system_device,
                    ..loading
                },
                None => loading,
            }
        };
        lemma_from_microphone(choosing, around);
        if by_request {
            lemma_step(begin, around, choosing.choosing_microphone());
        } else {
            assert(loading.after(around.reply(loading)) == choosing.choosing_microphone());
            lemma_step(loading, around, choosing.choosing_microphone());
            lemma_step(begin, around, loading);
        }
        assert(work(begin, around) =~= seq![Work::ValidateModel] + only_if(
            !by_request,
            Work::LoadPreferences,
        ) + work(choosing.choosing_microphone(), around));
    }
}

} // verus!
