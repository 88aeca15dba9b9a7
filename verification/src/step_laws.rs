//! What single steps of what is going on have to do with the whole.

use crate::core_audio::{TapAction, TapEvent, TapReader};
use crate::creation::StreamCreation;
use crate::device::AudioDevice;
use crate::lookup::DeviceLookup;
use crate::pulse_capture::{next_stage, CaptureEvent, CaptureLoop};
use crate::session::{
    attempt_device_reconnect, device_reconnect_attempted, Control, ControlStage, DeviceMonitorType,
    RecordingSession,
};
use crate::session_laws::told_by;
use crate::start::Startup;
use crate::stop::{
    stop_after_fatal_error, stop_recording, stop_recording_from_compact, Shutdown, StopStage,
};
use crate::stop_laws::{shutdown_does_everything_in_order, work_of, work_of_shutdown};
use crate::stream::{AudioStream, AudioStreamManager, CaptureKind, StartStage};
use vstd::prelude::*;

verus! {

// ---------------------------------------------------------------------------
// Steps on the way
// ---------------------------------------------------------------------------

/// A startup that takes in what came of its stage comes to the same end.
pub proof fn a_startup_stays_on_its_way<M, T, L>(
    startup: &mut Startup,
    session: &mut RecordingSession<M, T, L>,
    around: crate::start_laws::Surroundings<M, T, L>,
)
    requires
        !(old(startup).stage is Finished),
        call_ensures(
            Startup::step::<M, T, L>,
            (startup, session, around.reply(*old(startup))),
            (),
        ),
    ensures
        crate::start_laws::outcome(*final(startup), *final(session), around)
            == crate::start_laws::outcome(*old(startup), *old(session), around),
        crate::start_work_laws::work(*old(startup), around) == seq![
            crate::start_work_laws::work_of(*old(startup)),
        ] + crate::start_work_laws::work(*final(startup), around),
{
    reveal(crate::start_work_laws::work);
}

/// A shutdown that takes in what came of its stage comes to the same end, with that one
/// piece of work done.
pub proof fn a_shutdown_stays_on_its_way<M, T, L>(
    shutdown: &mut Shutdown<M, T, L>,
    session: &mut RecordingSession<M, T, L>,
    around: crate::stop_laws::Surroundings<M, T>,
)
    requires
        !(old(shutdown).stage is Finished),
        call_ensures(
            Shutdown::<M, T, L>::step,
            (shutdown, session, around.reply(work_of(*old(shutdown)))),
            (),
        ),
    ensures
        ({
            let before = crate::stop_laws::outcome(*old(shutdown), *old(session), around);
            let after = crate::stop_laws::outcome(*final(shutdown), *final(session), around);
            &&& before.0 == seq![work_of(*old(shutdown))] + after.0
            &&& before.1 == after.1
            &&& before.2 == after.2
        }),
{
    reveal(crate::stop_laws::outcome);
}

/// A creation that takes in what came of its stage comes to the same end, and is that of
/// the same device.
pub proof fn a_creation_stays_on_its_way<C, T, F>(
    creation: &mut StreamCreation<C, T, F>,
    around: crate::creation_laws::Surroundings<C, T, F>,
)
    requires
        call_ensures(
            StreamCreation::<C, T, F>::step,
            (creation, around.reply(*old(creation))),
            (),
        ),
    ensures
        crate::creation_laws::outcome(*final(creation), around) == crate::creation_laws::outcome(
            *old(creation),
            around,
        ),
        final(creation).device == old(creation).device,
{
}

/// A lookup that takes in what came of its stage comes to the same end, and is that of
/// the same device.
pub proof fn a_lookup_stays_on_its_way(
    lookup: &mut DeviceLookup,
    around: crate::lookup_laws::Surroundings,
)
    requires
        call_ensures(DeviceLookup::step, (lookup, around.reply(old(lookup).stage)), ()),
    ensures
        final(lookup).device == old(lookup).device,
        final(lookup).platform == old(lookup).platform,
        crate::lookup_laws::outcome(final(lookup).stage, old(lookup).device.name@, around)
            == crate::lookup_laws::outcome(old(lookup).stage, old(lookup).device.name@, around),
{
}

/// A pause or resume that was applied is announced as what it is, and then it is over but
/// for the tray menu.
pub proof fn a_control_is_announced_as_what_it_is(
    control: Control,
    announcing: ControlStage,
    event: (&'static str, &'static str),
    updating: ControlStage,
    over: ControlStage,
)
    requires
        call_ensures(ControlStage::step, (ControlStage::Apply(control), Ok(())), announcing),
        announcing is Announce ==> call_ensures(
            Control::event,
            (&announcing->Announce_0,),
            event,
        ),
        call_ensures(ControlStage::step, (announcing, Ok(())), updating),
        call_ensures(ControlStage::step, (updating, Ok(())), over),
    ensures
        announcing == ControlStage::Announce(control),
        event.0@ == told_by(control).0,
        event.1@ == told_by(control).1,
        updating is UpdateTray,
        over is Done,
{
}

/// Starting the streams goes on by what came of creating a stream and noting a device,
/// and by nothing else.
pub proof fn a_start_of_streams_stays_on_its_way<C, T, F>(
    manager: &mut AudioStreamManager<C, T, F>,
    create: spec_fn(CaptureKind, AudioDevice) -> Result<AudioStream<C, T, F>, String>,
)
    requires
        match old(manager).stage {
            StartStage::CreateMicrophone { device, system: _ } => call_ensures(
                AudioStreamManager::<C, T, F>::created,
                (manager, create(CaptureKind::Microphone, device)),
                (),
            ),
            StartStage::CreateSystem { device } => call_ensures(
                AudioStreamManager::<C, T, F>::created,
                (manager, create(CaptureKind::System, device)),
                (),
            ),
            _ => call_ensures(AudioStreamManager::<C, T, F>::marked, (manager,), ()),
        },
    ensures
        crate::stream_laws::outcome(*final(manager), create).1 == crate::stream_laws::outcome(
            *old(manager),
            create,
        ).1,
{
}

/// The read loop goes on by what it waits for, and reads the same number of bytes each
/// time.
pub proof fn a_read_loop_keeps_its_size(read_loop: &mut CaptureLoop, event: CaptureEvent)
    requires
        call_ensures(CaptureLoop::step, (read_loop, event), ()),
    ensures
        final(read_loop).read_bytes == old(read_loop).read_bytes,
        final(read_loop).stage == next_stage(old(read_loop).stage, event),
{
}

/// What a tap delivers is handed on or waits: a step hands on nothing or a whole chunk,
/// and what is handed on and what waits then is what waited before and the sample that
/// came, if one did at the right rate. What else comes ends the reading.
pub proof fn a_tap_hands_on_what_came<S>(
    reader: &mut TapReader<S>,
    event: TapEvent<S>,
    action: TapAction<S>,
)
    requires
        call_ensures(TapReader::<S>::step, (reader, event), action),
        !old(reader)@.left,
    ensures
        ({
            let given = match action {
                TapAction::Process(chunk) => chunk@,
                _ => Seq::empty(),
            };
            let came = match event {
                TapEvent::Sample { sample, rate } => if rate == old(reader)@.sample_rate {
                    seq![sample]
                } else {
                    Seq::empty()
                },
                _ => Seq::empty(),
            };
            &&& given + final(reader)@.buffer == old(reader)@.buffer + came
            &&& action is Process ==> given.len() == 1024
            &&& final(reader)@.buffer.len() < 1024
            &&& final(reader)@.left <==> came.len() == 0
            &&& came.len() > 0 ==> action is Wait || action is Process
            &&& event is Ended ==> action is Leave
            &&& event is Stalled ==> action == TapAction::<S>::Fail(
                crate::core_audio::AudioError::ChannelClosed,
            )
            &&& event is Sample && came.len() == 0 ==> action == TapAction::<S>::Fail(
                crate::core_audio::AudioError::SampleRateUnsupported,
            )
        }),
{
    let given = match action {
        TapAction::Process(chunk) => chunk@,
        _ => Seq::empty(),
    };
    let came = old(reader)@.accepts(event);
    assert(given + final(reader)@.buffer =~= old(reader)@.buffer + came);
}

/// A tap that is read to its end hands on what waits, all of it and only once.
pub proof fn the_rest_is_handed_on_once<S>(
    reader: &mut TapReader<S>,
    rest: Option<Vec<S>>,
    again: &mut TapReader<S>,
    more: Option<Vec<S>>,
)
    requires
        call_ensures(TapReader::<S>::take_remaining, (reader,), rest),
        *old(again) == *final(reader),
        call_ensures(TapReader::<S>::take_remaining, (again,), more),
    ensures
        rest is Some <==> old(reader)@.buffer.len() > 0,
        rest is Some ==> rest->0@ == old(reader)@.buffer,
        more is None,
{
}

// ---------------------------------------------------------------------------
// Stopping
// ---------------------------------------------------------------------------

/// Every request to stop a recording does everything there is to do; the main window
/// comes back exactly where the request came from the compact window.
pub proof fn every_stop_does_everything<M, T, L>(
    session: &mut RecordingSession<M, T, L>,
    other: &mut RecordingSession<M, T, L>,
    third: &mut RecordingSession<M, T, L>,
    around: crate::stop_laws::Surroundings<M, T>,
    plain: Shutdown<M, T, L>,
    compact: Shutdown<M, T, L>,
    fatal: Option<Shutdown<M, T, L>>,
)
    requires
        old(session).is_recording,
        !old(session).is_stopping,
        *old(other) == *old(session),
        *old(third) == *old(session),
        call_ensures(stop_recording::<M, T, L>, (session,), plain),
        call_ensures(stop_recording_from_compact::<M, T, L>, (other,), compact),
        call_ensures(stop_after_fatal_error::<M, T, L>, (third,), fatal),
    ensures
        crate::stop_laws::outcome(plain, *final(session), around).0 == work_of_shutdown(
            *old(session),
            false,
            around,
        ),
        crate::stop_laws::outcome(compact, *final(other), around).0 == work_of_shutdown(
            *old(session),
            true,
            around,
        ),
        fatal is Some,
        crate::stop_laws::outcome(fatal->0, *final(third), around).0 == work_of_shutdown(
            *old(session),
            false,
            around,
        ),
{
    shutdown_does_everything_in_order(*old(session), false, around);
    shutdown_does_everything_in_order(*old(session), true, around);
}

/// Of two requests to stop one recording, the second finds it being stopped already.
pub proof fn one_request_stops_a_recording<M, T, L>(
    session: &mut RecordingSession<M, T, L>,
    first: Shutdown<M, T, L>,
    later: &mut RecordingSession<M, T, L>,
    second: Shutdown<M, T, L>,
)
    requires
        old(session).is_recording,
        call_ensures(stop_recording::<M, T, L>, (session,), first),
        *old(later) == *final(session),
        call_ensures(stop_recording::<M, T, L>, (later,), second),
    ensures
        second.stage == StopStage::Finished(crate::stop::StopOutcome::AlreadyStopping),
        *final(later) == *final(session),
{
}

/// The streams are handed out each in its place, and none is left: what is asked for
/// again is not there.
pub proof fn streams_are_handed_out_once<C, T, F>(
    manager: &mut AudioStreamManager<C, T, F>,
    streams: (Option<AudioStream<C, T, F>>, Option<AudioStream<C, T, F>>),
    again: &mut AudioStreamManager<C, T, F>,
    more: (Option<AudioStream<C, T, F>>, Option<AudioStream<C, T, F>>),
)
    requires
        call_ensures(AudioStreamManager::<C, T, F>::stop_streams, (manager,), streams),
        *old(again) == *final(manager),
        call_ensures(AudioStreamManager::<C, T, F>::stop_streams, (again,), more),
    ensures
        streams.0 == old(manager).microphone_stream,
        streams.1 == old(manager).system_stream,
        more.0 is None && more.1 is None,
        final(manager).stage == old(manager).stage,
{
}

// ---------------------------------------------------------------------------
// Reconnecting
// ---------------------------------------------------------------------------

/// An attempt to reconnect a device borrows the manager of the session: it is asked for
/// the type of device that the name says, and once it is over the session is as it was,
/// whatever came of it.
pub proof fn a_reconnect_gives_the_manager_back<M, T, L>(
    session: &mut RecordingSession<M, T, L>,
    name: &str,
    borrowed: Result<(M, DeviceMonitorType), String>,
    later: &mut RecordingSession<M, T, L>,
    attempt: Result<bool, String>,
    result: Result<bool, String>,
)
    requires
        call_ensures(attempt_device_reconnect::<M, T, L>, (session, name), borrowed),
        *old(later) == *final(session),
        borrowed is Ok ==> call_ensures(
            device_reconnect_attempted::<M, T, L>,
            (later, (borrowed->Ok_0).0, attempt),
            result,
        ),
    ensures
        borrowed is Ok ==> *final(later) == *old(session) && result == attempt
            && final(session).manager is None && (borrowed->Ok_0).1.shown() == name@,
        borrowed is Err ==> *final(session) == *old(session),
        borrowed is Ok <==> old(session).manager is Some && (name@ == "Microphone"@ || name@
            == "SystemAudio"@),
{
    crate::session_laws::monitor_types_have_one_name_each(name@, DeviceMonitorType::Microphone);
    crate::session_laws::monitor_types_have_one_name_each(name@, DeviceMonitorType::SystemAudio);
}

} // verus!
