//! What starting and stopping the streams of a recording comes to as a whole.

use crate::device::AudioDevice;
use crate::stream::{
    listed, scale_of, start_ends_with_a_stream, steps_left, stop_failures, stop_of, AudioStream,
    AudioStreamManager, CaptureKind, SampleFormat, SampleScale, StartFailure, StartStage,
    StreamBackend, StreamStop,
};
use vstd::prelude::*;

verus! {

/// The devices that were noted as in use until the streams are started or failed, and
/// the streams then. `create` says what comes of creating a stream.
pub open spec fn outcome<C, T, F>(
    manager: AudioStreamManager<C, T, F>,
    create: spec_fn(CaptureKind, AudioDevice) -> Result<AudioStream<C, T, F>, String>,
) -> (Seq<(CaptureKind, AudioDevice)>, AudioStreamManager<C, T, F>)
    decreases steps_left(manager.stage),
{
    match manager.stage {
        StartStage::CreateMicrophone { device, system } => {
            let reply = create(CaptureKind::Microphone, device);
            proof {
                start_ends_with_a_stream(manager, reply);
            }
            outcome(manager.after_created(reply), create)
        },
        StartStage::CreateSystem { device } => {
            let reply = create(CaptureKind::System, device);
            proof {
                start_ends_with_a_stream(manager, reply);
            }
            outcome(manager.after_created(reply), create)
        },
        StartStage::MarkMicrophone { device, system } => {
            let rest = outcome(manager.after_marked(), create);
            (seq![(CaptureKind::Microphone, device)] + rest.0, rest.1)
        },
        StartStage::MarkSystem { device } => {
            let rest = outcome(manager.after_marked(), create);
            (seq![(CaptureKind::System, device)] + rest.0, rest.1)
        },
        _ => (Seq::empty(), manager),
    }
}

/// The stream of a device, or the one that was there, if any.
pub open spec fn created_or<S>(
    device: Option<AudioDevice>,
    create: spec_fn(AudioDevice) -> Result<S, String>,
    before: Option<S>,
) -> Option<S> {
    match device {
        Some(device) => match create(device) {
            Ok(stream) => Some(stream),
            Err(_) => before,
        },
        None => before,
    }
}

/// A device is noted as in use where a stream was created for it.
pub open spec fn noted<S>(
    kind: CaptureKind,
    device: Option<AudioDevice>,
    create: spec_fn(AudioDevice) -> Result<S, String>,
) -> Seq<(CaptureKind, AudioDevice)> {
    match device {
        Some(device) => if create(device) is Ok {
            seq![(kind, device)]
        } else {
            Seq::empty()
        },
        None => Seq::empty(),
    }
}

/// Starting creates the stream of each device that is given and keeps it in its place:
/// what was created for the microphone as the microphone's, what was created for system
/// audio as that of system audio. A microphone that cannot be created ends the start
/// with its reason; system audio that cannot be created is done without; and without
/// any stream there is no start.
pub proof fn start_keeps_each_stream_in_its_place<C, T, F>(
    manager: AudioStreamManager<C, T, F>,
    microphone: Option<AudioDevice>,
    system: Option<AudioDevice>,
    create: spec_fn(CaptureKind, AudioDevice) -> Result<AudioStream<C, T, F>, String>,
)
    ensures
        ({
            let (marks, end) = outcome(manager.after_start(microphone, system), create);
            let mic = |d: AudioDevice| create(CaptureKind::Microphone, d);
            let sys = |d: AudioDevice| create(CaptureKind::System, d);
            if microphone is Some && mic(microphone->0) is Err {
                &&& end.stage == StartStage::Failed(
                    StartFailure::Microphone(mic(microphone->0)->Err_0),
                )
                &&& end.microphone_stream == manager.microphone_stream
                &&& end.system_stream == manager.system_stream
                &&& marks == Seq::<(CaptureKind, AudioDevice)>::empty()
            } else {
                &&& end.microphone_stream == created_or(microphone, mic, manager.microphone_stream)
                &&& end.system_stream == created_or(system, sys, manager.system_stream)
                &&& marks == noted(CaptureKind::Microphone, microphone, mic) + noted(
                    CaptureKind::System,
                    system,
                    sys,
                )
                &&& end.stage is Started <==> end.microphone_stream is Some
                    || end.system_stream is Some
                &&& !(end.stage is Started) ==> end.stage == StartStage::Failed(
                    StartFailure::NoStreams,
                )
            }
        }),
{
    reveal_with_fuel(outcome, 5);
    let (marks, end) = outcome(manager.after_start(microphone, system), create);
    let mic = |d: AudioDevice| create(CaptureKind::Microphone, d);
    let sys = |d: AudioDevice| create(CaptureKind::System, d);
    if microphone is Some && mic(microphone->0) is Err {
    } else {
        assert(marks =~= noted(CaptureKind::Microphone, microphone, mic) + noted(
            CaptureKind::System,
            system,
            sys,
        ));
    }
}

/// The failures to stop are told in order: the microphone's, then that of system audio.
pub proof fn failures_to_stop_are_told_in_order(one: String, other: String)
    ensures
        listed(stop_failures(Err(one), Ok(()))) == "["@ + one@ + "]"@,
        listed(stop_failures(Ok(()), Err(other))) == "["@ + other@ + "]"@,
        listed(stop_failures(Err(one), Err(other))) == "["@ + (one@ + ", "@ + other@) + "]"@,
{
    reveal_with_fuel(crate::stream::comma_separated, 3);
    assert(stop_failures(Err(one), Ok(())) =~= seq![one@]);
    assert(stop_failures(Ok(()), Err(other)) =~= seq![other@]);
    let both = stop_failures(Err(one), Err(other));
    assert(both =~= seq![one@, other@]);
    assert(both.drop_last() =~= seq![one@]);
}

/// What runs is what is stopped: no two backends are stopped alike, and each in the way
/// that reaches what it holds on to.
pub proof fn what_runs_is_what_is_stopped<C, T, F>(
    one: StreamBackend<C, T, F>,
    other: StreamBackend<C, T, F>,
)
    ensures
        stop_of(one) == stop_of(other) <==> one == other,
        one is Cpal <==> stop_of(one) is PauseAndDrop,
        one is CoreAudio <==> stop_of(one) is Abort,
        one is Pulse <==> stop_of(one) is RaiseAndJoin,
        stop_of(one) matches StreamStop::PauseAndDrop(stream) ==> one == StreamBackend::<
            C,
            T,
            F,
        >::Cpal(stream),
        stop_of(one) matches StreamStop::Abort(held) ==> one->CoreAudio_task == held,
        stop_of(one) matches StreamStop::RaiseAndJoin { should_stop: flag, task: held }
            ==> one->should_stop == flag && one->Pulse_task == held,
{
}

/// Scaling takes the largest sample of a format to one: the divisor is that sample, and
/// a format that holds fractions is left as it is. No other format is supported.
pub proof fn full_scale_becomes_one(format: SampleFormat)
    ensures
        scale_of(format) is None <==> format is Other,
        scale_of(format) == Some(SampleScale::AsIs) <==> format is F32,
        format is I8 ==> scale_of(format) == Some(SampleScale::DividedBy(0x7f)),
        format is I16 ==> scale_of(format) == Some(SampleScale::DividedBy(0x7fff)),
        format is I32 ==> scale_of(format) == Some(SampleScale::DividedBy(0x7fff_ffff)),
{
}

} // verus!
