//! Reading a Core Audio tap: samples arrive one by one and are handed on in
//! chunks, and a tap that stalls, changes its rate or ends is reported.

use vstd::prelude::*;

verus! {

/// Samples that are handed on at a time.
pub const TAP_CHUNK: usize = 1024;

/// How long a tap may stay silent before it counts as stalled.
pub const TAP_TIMEOUT_MS: u64 = 5000;

/// The tap delivers one channel.
pub const TAP_CHANNELS: u16 = 1;

/// A failure of a capture that ends the recording.
#[derive(Clone, Copy, Debug, PartialEq, Eq, Structural)]
pub enum AudioError {
    /// The stream stopped delivering.
    ChannelClosed,
    /// The stream changed to another sample rate.
    SampleRateUnsupported,
}

/// What the tap did, with samples of type `S`.
#[derive(Debug)]
pub enum TapEvent<S> {
    /// It delivered a sample, at this rate.
    Sample { sample: S, rate: u32 },
    /// It came to its end.
    Ended,
    /// It delivered nothing for [`TAP_TIMEOUT_MS`].
    Stalled,
}

/// What to do after an event.
#[derive(Debug)]
pub enum TapAction<S> {
    /// Wait for the next event.
    Wait,
    /// Hand the chunk on, then wait for the next event.
    Process(Vec<S>),
    /// Report the failure, then stop reading.
    Fail(AudioError),
    /// Stop reading.
    Leave,
}

/// A reader of a tap.
#[derive(Debug)]
pub struct TapReader<S> {
    buffer: Vec<S>,
    sample_rate: u32,
    failed: bool,
    left: bool,
}

/// The state of a reader.
#[verifier::ext_equal]
pub struct TapModel<S> {
    /// The samples that wait to be handed on.
    pub buffer: Seq<S>,
    pub sample_rate: u32,
    /// A failure was reported.
    pub failed: bool,
    /// Reading is over.
    pub left: bool,
}

impl<S> View for TapReader<S> {
    type V = TapModel<S>;

    closed spec fn view(&self) -> TapModel<S> {
        TapModel {
            buffer: self.buffer@,
            sample_rate: self.sample_rate,
            failed: self.failed,
            left: self.left,
        }
    }
}

impl<S> TapModel<S> {
    /// Fewer samples wait than make up a chunk.
    pub open spec fn wf(self) -> bool {
        self.buffer.len() < TAP_CHUNK
    }

    /// The samples that an event adds: one at the expected rate, while reading.
    pub open spec fn accepts(self, event: TapEvent<S>) -> Seq<S> {
        match event {
            TapEvent::Sample { sample, rate } => if !self.left && rate == self.sample_rate {
                seq![sample]
            } else {
                Seq::empty()
            },
            _ => Seq::empty(),
        }
    }

    /// The failure that an event is reported as.
    pub open spec fn failure(self, event: TapEvent<S>) -> Option<AudioError> {
        if self.left {
            None
        } else {
            match event {
                TapEvent::Sample { sample, rate } => if rate == self.sample_rate {
                    None
                } else {
                    Some(AudioError::SampleRateUnsupported)
                },
                TapEvent::Stalled => Some(AudioError::ChannelClosed),
                TapEvent::Ended => None,
            }
        }
    }

    /// The samples that are handed on after an event: a whole chunk, once it is
    /// full.
    pub open spec fn hands_on(self, event: TapEvent<S>) -> Seq<S> {
        let all = self.buffer + self.accepts(event);
        if all.len() >= TAP_CHUNK {
            all
        } else {
            Seq::empty()
        }
    }

    /// The state after an event.
    pub open spec fn after(self, event: TapEvent<S>) -> TapModel<S> {
        let all = self.buffer + self.accepts(event);
        TapModel {
            buffer: if all.len() >= TAP_CHUNK {
                Seq::empty()
            } else {
                all
            },
            sample_rate: self.sample_rate,
            failed: self.failed || self.failure(event) is Some,
            left: self.left || event is Ended || self.failure(event) is Some,
        }
    }
}

impl<S> TapReader<S> {
    #[verifier::type_invariant]
    spec fn below_a_chunk(self) -> bool {
        self@.wf()
    }

    /// A reader of a tap that delivers at the given rate.
    pub fn new(sample_rate: u32) -> (reader: Self)
        ensures
            reader@.wf(),
            reader@ == (TapModel::<S> {
                buffer: Seq::empty(),
                sample_rate,
                failed: false,
                left: false,
            }),
    {
        TapReader { buffer: Vec::new(), sample_rate, failed: false, left: false }
    }

    /// Take in what the tap did.
    pub fn step(&mut self, event: TapEvent<S>) -> (action: TapAction<S>)
        ensures
            old(self)@.wf(),
            final(self)@ == old(self)@.after(event),
            match action {
                TapAction::Wait => !final(self)@.left && old(self)@.hands_on(event).len() == 0,
                TapAction::Process(chunk) => chunk@ == old(self)@.hands_on(event) && chunk@.len()
                    == TAP_CHUNK,
                TapAction::Fail(error) => old(self)@.failure(event) == Some(error),
                TapAction::Leave => final(self)@.left && old(self)@.failure(event) is None,
            },
    {
        proof {
            use_type_invariant(&*self);
            assert(self.buffer@ + Seq::<S>::empty() =~= self.buffer@);
        }
        if self.left {
            return TapAction::Leave;
        }
        match event {
            TapEvent::Sample { sample, rate } => {
                if rate != self.sample_rate {
                    self.failed = true;
                    self.left = true;
                    return TapAction::Fail(AudioError::SampleRateUnsupported);
                }
                let ghost before = self.buffer@;
                let mut chunk: Vec<S> = Vec::new();
                std::mem::swap(&mut chunk, &mut self.buffer);
                chunk.push(sample);
                proof {
                    assert(chunk@ =~= before + seq![sample]);
                }
                if chunk.len() >= TAP_CHUNK {
                    TapAction::Process(chunk)
                } else {
                    self.buffer = chunk;
                    TapAction::Wait
                }
            },
            TapEvent::Ended => {
                self.left = true;
                TapAction::Leave
            },
            TapEvent::Stalled => {
                self.failed = true;
                self.left = true;
                TapAction::Fail(AudioError::ChannelClosed)
            },
        }
    }

    /// The samples that still wait when reading is over, if there are any.
    pub fn take_remaining(&mut self) -> (rest: Option<Vec<S>>)
        ensures
            final(self)@ == (TapModel { buffer: Seq::<S>::empty(), ..old(self)@ }),
            match rest {
                Some(chunk) => chunk@ == old(self)@.buffer && chunk@.len() > 0,
                None => old(self)@.buffer.len() == 0,
            },
    {
        if self.buffer.len() == 0 {
            proof {
                assert(self.buffer@ =~= Seq::<S>::empty());
            }
            return None;
        }
        let mut chunk: Vec<S> = Vec::new();
        std::mem::swap(&mut chunk, &mut self.buffer);
        Some(chunk)
    }

    /// What to report when reading is over: a tap that ended by itself during a
    /// recording failed, unless a failure was already reported.
    pub fn unexpected_end(&self, is_recording: bool) -> (error: Option<AudioError>)
        ensures
            error == if !self@.failed && is_recording {
                Some(AudioError::ChannelClosed)
            } else {
                None::<AudioError>
            },
    {
        if !self.failed && is_recording {
            Some(AudioError::ChannelClosed)
        } else {
            None
        }
    }
}

// ---------------------------------------------------------------------------
// Laws
// ---------------------------------------------------------------------------

/// The state after a series of events.
pub open spec fn tap_after<S>(start: TapModel<S>, events: Seq<TapEvent<S>>) -> TapModel<S>
    decreases events.len(),
{
    if events.len() == 0 {
        start
    } else {
        tap_after(start, events.drop_last()).after(events.last())
    }
}

/// The samples that a series of events adds.
pub open spec fn accepted<S>(start: TapModel<S>, events: Seq<TapEvent<S>>) -> Seq<S>
    decreases events.len(),
{
    if events.len() == 0 {
        Seq::empty()
    } else {
        let before = events.drop_last();
        accepted(start, before) + tap_after(start, before).accepts(events.last())
    }
}

/// The samples that are handed on during a series of events.
pub open spec fn handed_on<S>(start: TapModel<S>, events: Seq<TapEvent<S>>) -> Seq<S>
    decreases events.len(),
{
    if events.len() == 0 {
        Seq::empty()
    } else {
        let before = events.drop_last();
        handed_on(start, before) + tap_after(start, before).hands_on(events.last())
    }
}

/// No sample is lost, repeated or reordered: what was handed on, followed by what
/// still waits, is what was there at the start, followed by what came in.
pub proof fn no_sample_is_lost<S>(start: TapModel<S>, events: Seq<TapEvent<S>>)
    ensures
        handed_on(start, events) + tap_after(start, events).buffer == start.buffer + accepted(
            start,
            events,
        ),
    decreases events.len(),
{
    if events.len() == 0 {
        assert(handed_on(start, events) + start.buffer =~= start.buffer + accepted(start, events));
    } else {
        let before = events.drop_last();
        no_sample_is_lost(start, before);
        let m = tap_after(start, before);
        let event = events.last();
        let all = m.buffer + m.accepts(event);
        assert(m.hands_on(event) + m.after(event).buffer =~= all);
        assert(handed_on(start, events) + tap_after(start, events).buffer =~= handed_on(
            start,
            before,
        ) + all);
        assert(start.buffer + accepted(start, events) =~= (start.buffer + accepted(start, before))
            + m.accepts(event));
        assert(handed_on(start, before) + all =~= (handed_on(start, before) + m.buffer)
            + m.accepts(event));
    }
}

/// Fewer samples than a chunk ever wait, so that what remains at the end is less
/// than a chunk.
pub proof fn waiting_stays_below_a_chunk<S>(start: TapModel<S>, events: Seq<TapEvent<S>>)
    requires
        start.wf(),
    ensures
        tap_after(start, events).wf(),
    decreases events.len(),
{
    if events.len() > 0 {
        waiting_stays_below_a_chunk(start, events.drop_last());
    }
}

/// At most one failure is reported: after it, reading is over and nothing more is
/// reported or handed on.
pub proof fn one_failure_at_most<S>(m: TapModel<S>, event: TapEvent<S>, later: TapEvent<S>)
    requires
        m.failure(event) is Some,
    ensures
        m.after(event).failed,
        m.after(event).left,
        m.after(event).failure(later) is None,
        m.after(event).accepts(later) == Seq::<S>::empty(),
{
}

} // verus!
