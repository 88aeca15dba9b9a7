//! What the commands on a running recording come to as a whole.

use crate::session::{
    idle_status, refusal, CommandError, Control, ControlStage, DeviceEvent, DeviceEventResponse,
    DeviceMonitorType, MuteChange, MutedSource, RecordingSession,
};
use vstd::prelude::*;

verus! {

/// A piece of work for pausing or resuming.
pub enum ControlWork {
    /// Have the manager do it.
    Apply(Control),
    /// Send the event of a name, with a message.
    Send(Seq<char>, Seq<char>),
    UpdateTray,
}

/// The work of a pause or resume until its end, and how it ends, where the manager and
/// the front end answer as given.
pub open spec fn carried_out(
    stage: ControlStage,
    manager: spec_fn(Control) -> Result<(), String>,
    sent: spec_fn(Seq<char>, Seq<char>) -> Result<(), String>,
    steps: nat,
) -> (Seq<ControlWork>, ControlStage)
    decreases steps,
{
    if steps == 0 {
        (Seq::empty(), stage)
    } else {
        let (work, result) = match stage {
            ControlStage::Apply(control) => (
                seq![ControlWork::Apply(control)],
                manager(control),
            ),
            ControlStage::Announce(control) => (
                seq![ControlWork::Send(control.event_name(), control.event_text())],
                sent(control.event_name(), control.event_text()),
            ),
            ControlStage::UpdateTray => (seq![ControlWork::UpdateTray], Ok(())),
            _ => (Seq::empty(), Ok(())),
        };
        let rest = carried_out(stage.after(result), manager, sent, (steps - 1) as nat);
        (work + rest.0, rest.1)
    }
}

/// The event that a pause or a resume is told by, and its message.
pub open spec fn told_by(control: Control) -> (Seq<char>, Seq<char>) {
    if control == Control::Pause {
        ("recording-paused"@, "Recording paused"@)
    } else {
        ("recording-resumed"@, "Recording resumed"@)
    }
}

/// What is applied is what is told: a pause pauses and is told as a pause, a resume
/// resumes and is told as a resume. What fails ends it, with the reason that was given,
/// and nothing after that is done.
pub proof fn what_is_applied_is_told(
    control: Control,
    manager: spec_fn(Control) -> Result<(), String>,
    sent: spec_fn(Seq<char>, Seq<char>) -> Result<(), String>,
    steps: nat,
)
    requires
        steps >= 3,
    ensures
        ({
            let (work, end) = carried_out(ControlStage::Apply(control), manager, sent, steps);
            let (event, message) = told_by(control);
            match (manager(control), sent(event, message)) {
                (Err(why), _) => {
                    &&& work == seq![ControlWork::Apply(control)]
                    &&& end == ControlStage::Failed(CommandError::Manager(why))
                },
                (Ok(()), Err(why)) => {
                    &&& work == seq![ControlWork::Apply(control), ControlWork::Send(event, message)]
                    &&& end == ControlStage::Failed(CommandError::Event(why))
                },
                (Ok(()), Ok(())) => {
                    &&& work == seq![
                        ControlWork::Apply(control),
                        ControlWork::Send(event, message),
                        ControlWork::UpdateTray,
                    ]
                    &&& end is Done
                },
            }
        }),
{
    let n1 = (steps - 1) as nat;
    let n2 = (steps - 2) as nat;
    let n3 = (steps - 3) as nat;
    let (event, message) = told_by(control);
    assert(control.event_name() == event && control.event_text() == message);
    match manager(control) {
        Err(why) => {
            lemma_over(ControlStage::Failed(CommandError::Manager(why)), manager, sent, n1);
        },
        Ok(()) => match sent(event, message) {
            Err(why) => {
                lemma_over(ControlStage::Failed(CommandError::Event(why)), manager, sent, n2);
                assert(carried_out(ControlStage::Announce(control), manager, sent, n1).0
                    =~= seq![ControlWork::Send(event, message)]);
            },
            Ok(()) => {
                lemma_over(ControlStage::Done, manager, sent, n3);
                assert(carried_out(ControlStage::UpdateTray, manager, sent, n2).0 =~= seq![
                    ControlWork::UpdateTray,
                ]);
                assert(carried_out(ControlStage::Announce(control), manager, sent, n1).0 =~= seq![
                    ControlWork::Send(event, message),
                    ControlWork::UpdateTray,
                ]);
            },
        },
    }
    let work = carried_out(ControlStage::Apply(control), manager, sent, steps).0;
    let rest = work.drop_first();
    assert(work =~= seq![ControlWork::Apply(control)] + rest);
}

proof fn lemma_over(
    stage: ControlStage,
    manager: spec_fn(Control) -> Result<(), String>,
    sent: spec_fn(Seq<char>, Seq<char>) -> Result<(), String>,
    steps: nat,
)
    requires
        stage is Done || stage is Failed,
    ensures
        carried_out(stage, manager, sent, steps) == (Seq::<ControlWork>::empty(), stage),
    decreases steps,
{
    if steps > 0 {
        lemma_over(stage, manager, sent, (steps - 1) as nat);
        assert(Seq::<ControlWork>::empty() + Seq::<ControlWork>::empty()
            =~= Seq::<ControlWork>::empty());
    }
}

/// A session takes a command exactly where it records and has its manager; it is first
/// of all a recording that is asked for.
pub proof fn commands_need_a_recording_and_its_manager<M, T, L>(session: RecordingSession<M, T, L>)
    ensures
        refusal(session) is None <==> session.is_recording && session.manager is Some,
        refusal(session) == Some(CommandError::NotRecording) <==> !session.is_recording,
        refusal(session) == Some(CommandError::NoManager) <==> session.is_recording
            && session.manager is None,
{
}

/// A change of the microphone is never told as one of system audio.
pub proof fn mute_changes_are_told_apart(a: MuteChange, b: MuteChange)
    ensures
        a.event_name() == b.event_name() <==> a.source == b.source,
        a.source == MutedSource::Microphone ==> a.event_name() == "microphone-mute-changed"@,
        a.source == MutedSource::SystemAudio ==> a.event_name() == "system-audio-mute-changed"@,
{
    reveal_strlit("microphone-mute-changed");
    reveal_strlit("system-audio-mute-changed");
    assert("microphone-mute-changed"@[0] == 'm');
    assert("system-audio-mute-changed"@[0] == 's');
}

/// Where there is no manager, nothing is paused, muted or active, and no time passed.
pub proof fn nothing_goes_on_without_a_manager<D>(zero: D)
    ensures
        ({
            let status = idle_status(zero);
            &&& !status.is_paused && !status.is_microphone_muted && !status.is_system_audio_muted
                && !status.is_active
            &&& status.recording_duration is None && status.active_duration is None
                && status.current_pause_duration is None
            &&& status.total_pause_duration == zero
        }),
{
}

/// A response tells of one event only: which device came or went, what it is used for,
/// and whether it came or went.
pub proof fn responses_tell_events_apart(
    response: DeviceEventResponse,
    one: DeviceEvent,
    other: DeviceEvent,
)
    requires
        response.tells_of(one),
        response.tells_of(other),
    ensures
        one == other,
        one is DeviceListChanged <==> response is DeviceListChanged,
        one is DeviceDisconnected <==> response is DeviceDisconnected,
        one is DeviceReconnected <==> response is DeviceReconnected,
{
    reveal_strlit("Microphone");
    reveal_strlit("SystemAudio");
    assert("Microphone"@[0] == 'M');
    assert("SystemAudio"@[0] == 'S');
}

/// A name stands for a type of monitored device exactly where it is one of two, and for
/// that one.
pub proof fn monitor_types_have_one_name_each(name: Seq<char>, monitor_type: DeviceMonitorType)
    ensures
        DeviceMonitorType::of_name(name) == Some(monitor_type) <==> name == monitor_type.shown(),
        monitor_type == DeviceMonitorType::Microphone ==> monitor_type.shown() == "Microphone"@,
        monitor_type == DeviceMonitorType::SystemAudio ==> monitor_type.shown() == "SystemAudio"@,
{
    reveal_strlit("Microphone");
    reveal_strlit("SystemAudio");
    assert("Microphone"@[0] == 'M');
    assert("SystemAudio"@[0] == 'S');
}

} // verus!
