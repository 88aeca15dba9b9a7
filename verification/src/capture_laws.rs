//! What reading from a record stream or a tap comes to over a whole series of events.

use crate::core_audio::{accepted, handed_on, tap_after, AudioError, TapEvent, TapModel};
use crate::pulse_capture::{
    chunk_bytes, next_stage, stage_after, CaptureEvent, CaptureStage, CaptureTarget,
};
use vstd::prelude::*;

verus! {

// ---------------------------------------------------------------------------
// Record streams
// ---------------------------------------------------------------------------

/// The stage after one round: a look at the stop flag, a read, and another look.
pub open spec fn after_round(stop_before: bool, read: bool, stop_behind: bool) -> CaptureStage {
    stage_after(
        CaptureStage::BeforeRead,
        seq![
            CaptureEvent::StopFlag(stop_before),
            if read {
                CaptureEvent::ReadSucceeded
            } else {
                CaptureEvent::ReadFailed
            },
            CaptureEvent::StopFlag(stop_behind),
        ],
    )
}

/// A chunk is handed on exactly where it was read and the stop flag was down both before
/// and after that; otherwise the loop is over. Once it is handed on, a new round begins.
pub proof fn a_chunk_is_delivered_unless_stopped(stop_before: bool, read: bool, stop_behind: bool)
    ensures
        after_round(stop_before, read, stop_behind) == if !stop_before && read && !stop_behind {
            CaptureStage::Delivering
        } else {
            CaptureStage::Finished
        },
        next_stage(CaptureStage::Delivering, CaptureEvent::Delivered) is BeforeRead,
{
    let read_event = if read {
        CaptureEvent::ReadSucceeded
    } else {
        CaptureEvent::ReadFailed
    };
    let first = seq![CaptureEvent::StopFlag(stop_before)];
    let two = seq![CaptureEvent::StopFlag(stop_before), read_event];
    let all = seq![
        CaptureEvent::StopFlag(stop_before),
        read_event,
        CaptureEvent::StopFlag(stop_behind),
    ];
    reveal_with_fuel(stage_after, 4);
    assert(all.drop_last() =~= two);
    assert(two.drop_last() =~= first);
    assert(first.drop_last().len() == 0);
}

/// An event that a stage waits for.
pub open spec fn is_awaited(stage: CaptureStage, event: CaptureEvent) -> bool {
    match event {
        CaptureEvent::StopFlag(_) => stage is BeforeRead || stage is AfterRead,
        CaptureEvent::ReadSucceeded | CaptureEvent::ReadFailed => stage is Reading,
        CaptureEvent::Delivered => stage is Delivering,
    }
}

/// The loop goes on exactly where something happened that it waits for.
pub proof fn the_loop_goes_on_by_what_it_waits_for(stage: CaptureStage, event: CaptureEvent)
    ensures
        next_stage(stage, event) != stage <==> is_awaited(stage, event),
{
}

/// System audio takes twice the bytes of a microphone, which takes four for each frame.
pub proof fn stereo_takes_twice_the_bytes(channels: int)
    ensures
        chunk_bytes(channels) == 4096 * channels,
        chunk_bytes(CaptureTarget::Microphone.channel_count() as int) == 4 * 1024,
        chunk_bytes(CaptureTarget::System.channel_count() as int) == 2 * chunk_bytes(
            CaptureTarget::Microphone.channel_count() as int,
        ),
{
    assert(1024 * channels * 4 == 4096 * channels) by (nonlinear_arith);
}

// ---------------------------------------------------------------------------
// Taps
// ---------------------------------------------------------------------------

/// A tap that nothing was read from yet.
pub open spec fn fresh<S>(rate: u32) -> TapModel<S> {
    TapModel { buffer: Seq::empty(), sample_rate: rate, failed: false, left: false }
}

/// The event is a sample at the rate.
pub open spec fn is_sample_at<S>(event: TapEvent<S>, rate: u32) -> bool {
    match event {
        TapEvent::Sample { sample: _, rate: at } => at == rate,
        _ => false,
    }
}

/// The first so many events are samples at the rate, and what follows, if anything does,
/// is not.
pub open spec fn run_of_samples<S>(events: Seq<TapEvent<S>>, rate: u32, n: int) -> bool {
    &&& 0 <= n <= events.len()
    &&& forall|i: int| 0 <= i < n ==> is_sample_at(#[trigger] events[i], rate)
    &&& n < events.len() ==> !is_sample_at(events[n], rate)
}

/// What an event that is no sample at the rate is reported as: a sample at another rate
/// as that, a stalled tap as closed, and the end as nothing.
pub open spec fn reported<S>(event: TapEvent<S>) -> Option<AudioError> {
    if event is Sample {
        Some(AudioError::SampleRateUnsupported)
    } else if event is Stalled {
        Some(AudioError::ChannelClosed)
    } else {
        None
    }
}

/// A tap is read up to the first thing that is no sample at its rate: every sample up to
/// there comes in, in order, and none after it. Reading is then over, and the tap failed
/// unless it came to its end.
pub proof fn a_tap_is_read_to_its_first_fault<S>(events: Seq<TapEvent<S>>, rate: u32, n: int)
    requires
        run_of_samples(events, rate, n),
    ensures
        accepted(fresh::<S>(rate), events).len() == n,
        forall|i: int|
            0 <= i < n ==> #[trigger] accepted(fresh::<S>(rate), events)[i] == events[i]->sample,
        tap_after(fresh::<S>(rate), events).sample_rate == rate,
        tap_after(fresh::<S>(rate), events).left <==> n < events.len(),
        tap_after(fresh::<S>(rate), events).failed <==> n < events.len() && reported(
            events[n],
        ) is Some,
        n == events.len() ==> forall|next: TapEvent<S>| #[trigger]
            tap_after(fresh::<S>(rate), events).failure(next) == if is_sample_at(next, rate) {
                None
            } else {
                reported(next)
            },
        n < events.len() ==> forall|next: TapEvent<S>| #[trigger]
            tap_after(fresh::<S>(rate), events).failure(next) is None,
    decreases events.len(),
{
    let start = fresh::<S>(rate);
    if events.len() > 0 {
        let before = events.drop_last();
        let last = events.last();
        let m = if n < events.len() {
            n
        } else {
            n - 1
        };
        assert(run_of_samples(before, rate, m)) by {
            assert forall|i: int| 0 <= i < m implies is_sample_at(
                #[trigger] before[i],
                rate,
            ) by {
                assert(before[i] == events[i]);
            }
            if m < before.len() {
                assert(before[m] == events[m]);
            }
        }
        a_tap_is_read_to_its_first_fault(before, rate, m);
        let state = tap_after(start, before);
        assert(accepted(start, events) == accepted(start, before) + state.accepts(last));
        if n == events.len() {
            assert(is_sample_at(events[n - 1], rate));
            assert(state.accepts(last) =~= seq![last->sample]);
        } else if n == events.len() - 1 {
            assert(state.accepts(last) =~= Seq::<S>::empty());
        } else {
            assert(before[n] == events[n]);
            assert(state.accepts(last) =~= Seq::<S>::empty());
        }
        assert forall|i: int| 0 <= i < n implies #[trigger] accepted(start, events)[i]
            == events[i]->sample by {
            if i < m {
                assert(accepted(start, before)[i] == before[i]->sample);
            }
        }
    }
}

/// What is handed on comes in whole chunks of 1024 samples, and less than a chunk is
/// kept back: so many of the samples that came in are handed on as fill whole chunks.
pub proof fn samples_are_handed_on_by_the_chunk<S>(events: Seq<TapEvent<S>>, rate: u32)
    ensures
        ({
            let taken = accepted(fresh::<S>(rate), events);
            handed_on(fresh::<S>(rate), events) == taken.take(taken.len() as int / 1024 * 1024)
        }),
        forall|next: TapEvent<S>| #[trigger]
            tap_after(fresh::<S>(rate), events).hands_on(next).len() == 0 || tap_after(
                fresh::<S>(rate),
                events,
            ).hands_on(next).len() == 1024,
{
    let start = fresh::<S>(rate);
    let taken = accepted(start, events);
    let given = handed_on(start, events);
    let kept = tap_after(start, events).buffer;
    crate::core_audio::no_sample_is_lost(start, events);
    crate::core_audio::waiting_stays_below_a_chunk(start, events);
    lemma_whole_chunks(start, events);
    assert(given + kept == taken) by {
        assert(start.buffer + taken =~= taken);
    }
    assert(given.len() + kept.len() == taken.len());
    assert(taken.len() as int / 1024 * 1024 == given.len());
    assert(given =~= taken.take(given.len() as int));
}

proof fn lemma_whole_chunks<S>(start: TapModel<S>, events: Seq<TapEvent<S>>)
    requires
        start.wf(),
    ensures
        handed_on(start, events).len() % 1024 == 0,
    decreases events.len(),
{
    if events.len() > 0 {
        let before = events.drop_last();
        lemma_whole_chunks(start, before);
        crate::core_audio::waiting_stays_below_a_chunk(start, before);
        assert(handed_on(start, events).len() == handed_on(start, before).len() + tap_after(
            start,
            before,
        ).hands_on(events.last()).len());
    }
}

} // verus!
