//! The transcript of a recording: segments as they are kept, and what is told of a
//! meeting when it ends.

use crate::text::{
    ascii_lowercase, contains, decimal, decimal_text, joined, lowercase, occurs_in, to_lowercase,
    trim, trimmed,
};
use vstd::prelude::*;
use vstd::utf8::*;

verus! {

// ---------------------------------------------------------------------------
// Segments
// ---------------------------------------------------------------------------

/// A piece of transcript as it arrives, with times of type `S` and a confidence of
/// type `C`.
#[derive(Debug, PartialEq)]
pub struct TranscriptUpdate<S, C> {
    pub text: String,
    /// Wall-clock time, for display.
    pub timestamp: String,
    /// Who speaks, if it is known.
    pub source: String,
    pub sequence_id: u64,
    pub audio_start_time: S,
    pub audio_end_time: S,
    pub duration: S,
    pub confidence: C,
}

/// A piece of transcript as it is kept.
#[derive(Debug, PartialEq)]
pub struct TranscriptSegment<S, C> {
    pub id: String,
    pub text: String,
    pub audio_start_time: S,
    pub audio_end_time: S,
    pub duration: S,
    pub display_time: String,
    pub confidence: C,
    pub sequence_id: u64,
    pub speaker: Option<String>,
}

/// The identifier of the segment with a sequence number.
pub open spec fn segment_id(sequence_id: u64) -> Seq<char> {
    "seg_"@ + decimal(sequence_id as nat)
}

/// The segment that is kept for an update. The speaker that was already decided on
/// is kept; a blank one is none.
pub fn segment_of_update<S, C>(update: TranscriptUpdate<S, C>) -> (segment: TranscriptSegment<S, C>)
    ensures
        segment.id@ == segment_id(update.sequence_id),
        segment.text == update.text,
        segment.audio_start_time == update.audio_start_time,
        segment.audio_end_time == update.audio_end_time,
        segment.duration == update.duration,
        segment.display_time == update.timestamp,
        segment.confidence == update.confidence,
        segment.sequence_id == update.sequence_id,
        segment.speaker == if trimmed(update.source@).len() == 0 {
            None
        } else {
            Some(update.source)
        },
{
    let speaker = if trim(update.source.as_str()).is_empty() {
        None
    } else {
        Some(update.source)
    };
    TranscriptSegment {
        id: joined("seg_", decimal_text(update.sequence_id).as_str()),
        text: update.text,
        audio_start_time: update.audio_start_time,
        audio_end_time: update.audio_end_time,
        duration: update.duration,
        display_time: update.timestamp,
        confidence: update.confidence,
        sequence_id: update.sequence_id,
        speaker,
    }
}

/// Segments with different sequence numbers have different identifiers.
pub proof fn segment_ids_are_distinct(a: u64, b: u64)
    requires
        segment_id(a) == segment_id(b),
    ensures
        a == b,
{
    let left = decimal(a as nat);
    let right = decimal(b as nat);
    assert(left =~= segment_id(a).skip("seg_"@.len() as int));
    assert(right =~= segment_id(b).skip("seg_"@.len() as int));
    lemma_decimal_is_injective(a as nat, b as nat);
}

proof fn lemma_decimal_is_injective(a: nat, b: nat)
    requires
        decimal(a) == decimal(b),
    ensures
        a == b,
    decreases a,
{
    lemma_decimal_is_not_empty(a / 10);
    lemma_decimal_is_not_empty(b / 10);
    assert(decimal(a).last() == crate::text::digit(a % 10));
    assert(decimal(b).last() == crate::text::digit(b % 10));
    assert(a % 10 == b % 10);
    if a >= 10 && b >= 10 {
        assert(decimal(a / 10) =~= decimal(a).drop_last());
        assert(decimal(b / 10) =~= decimal(b).drop_last());
        lemma_decimal_is_injective(a / 10, b / 10);
    } else if a >= 10 {
        assert(decimal(a).len() > 1);
    } else if b >= 10 {
        assert(decimal(b).len() > 1);
    }
}

proof fn lemma_decimal_is_not_empty(n: nat)
    ensures
        decimal(n).len() > 0,
{
}

/// Where a segment is kept.
#[derive(Clone, Copy, Debug, PartialEq, Eq, Structural)]
pub enum SegmentKeeper {
    /// With the manager of the recording.
    Manager,
    /// In the transcript itself: the manager was already taken out to be stopped,
    /// while the last segments still arrive.
    Transcript,
}

/// Where a segment that arrives now is kept.
pub fn keeper_of_segment(has_manager: bool) -> (keeper: SegmentKeeper)
    ensures
        keeper is Manager <==> has_manager,
{
    if has_manager {
        SegmentKeeper::Manager
    } else {
        SegmentKeeper::Transcript
    }
}

// ---------------------------------------------------------------------------
// What is told of a meeting
// ---------------------------------------------------------------------------

/// A name (in lower case) that a wireless device goes by.
pub open spec fn sounds_wireless(lower: Seq<char>) -> bool {
    ||| occurs_in(lower, "bluetooth"@)
    ||| occurs_in(lower, "airpods"@)
    ||| occurs_in(lower, "beats"@)
    ||| occurs_in(lower, "headphones"@)
    ||| occurs_in(lower, "bt "@)
    ||| occurs_in(lower, "wireless"@)
}

/// The class of a device whose lower-case name is given.
pub open spec fn device_class(lower: Seq<char>) -> Seq<char> {
    if sounds_wireless(lower) {
        "Bluetooth"@
    } else {
        "Wired"@
    }
}

/// The class of a device, by its name in lower case.
pub fn classify_lowered(lower: &str) -> (class: &'static str)
    ensures
        class@ == device_class(lower@),
{
    if contains(lower, "bluetooth") || contains(lower, "airpods") || contains(lower, "beats")
        || contains(lower, "headphones") || contains(lower, "bt ") || contains(lower, "wireless") {
        "Bluetooth"
    } else {
        "Wired"
    }
}

/// The class of a device, by its name: all that is told of it.
pub fn classify_device_type(device_name: &str) -> (class: &'static str)
    ensures
        class@ == device_class(lowercase(device_name@)),
        is_ascii_chars(device_name@) ==> class@ == device_class(ascii_lowercase(device_name@)),
{
    classify_lowered(to_lowercase(device_name).as_str())
}

/// What a manager knows of a meeting that ended, with durations of type `D`.
#[derive(Debug, PartialEq)]
pub struct MeetingFacts<D> {
    pub total_duration: Option<D>,
    pub active_duration: Option<D>,
    pub pause_duration: D,
    pub microphone_name: Option<String>,
    pub system_name: Option<String>,
    pub chunks_processed: u64,
    pub transcript_segments: u64,
    pub had_fatal_error: bool,
}

/// A provider and one of its models.
#[derive(Debug, PartialEq, Eq)]
pub struct ModelChoice {
    pub provider: String,
    pub model: String,
}

/// What is told of a meeting that ended.
#[derive(Debug, PartialEq)]
pub struct MeetingReport<D> {
    pub transcription: ModelChoice,
    pub summary: ModelChoice,
    pub total_duration: Option<D>,
    pub active_duration: D,
    pub pause_duration: D,
    pub microphone_type: &'static str,
    pub system_audio_type: &'static str,
    pub chunks_processed: u64,
    pub transcript_segments: u64,
    pub had_fatal_error: bool,
}

/// The chosen model is told as it is, and an unknown one as unknown.
pub open spec fn tells_choice(told: ModelChoice, chosen: Option<ModelChoice>) -> bool {
    match chosen {
        Some(choice) => told == choice,
        None => told.provider@ == "unknown"@ && told.model@ == "unknown"@,
    }
}

/// The class that is told of a device.
pub open spec fn told_class(name: Option<String>) -> Seq<char> {
    match name {
        Some(name) => device_class(lowercase(name@)),
        None => "Unknown"@,
    }
}

fn choice_or_unknown(choice: Option<ModelChoice>) -> (told: ModelChoice)
    ensures
        tells_choice(told, choice),
{
    match choice {
        Some(choice) => choice,
        None => ModelChoice { provider: "unknown".to_owned(), model: "unknown".to_owned() },
    }
}

fn class_or_unknown(name: &Option<String>) -> (class: &'static str)
    ensures
        class@ == told_class(*name),
{
    match name {
        Some(name) => classify_device_type(name.as_str()),
        None => "Unknown",
    }
}

/// What is told of a meeting that ended: no device name, only its class. `zero` is
/// the duration of nothing.
pub fn meeting_report<D>(
    facts: MeetingFacts<D>,
    transcription: Option<ModelChoice>,
    summary: Option<ModelChoice>,
    zero: D,
) -> (report: MeetingReport<D>)
    ensures
        tells_choice(report.transcription, transcription),
        tells_choice(report.summary, summary),
        report.total_duration == facts.total_duration,
        report.active_duration == match facts.active_duration {
            Some(duration) => duration,
            None => zero,
        },
        report.pause_duration == facts.pause_duration,
        report.microphone_type@ == told_class(facts.microphone_name),
        report.system_audio_type@ == told_class(facts.system_name),
        report.chunks_processed == facts.chunks_processed,
        report.transcript_segments == facts.transcript_segments,
        report.had_fatal_error == facts.had_fatal_error,
{
    MeetingReport {
        transcription: choice_or_unknown(transcription),
        summary: choice_or_unknown(summary),
        total_duration: facts.total_duration,
        active_duration: match facts.active_duration {
            Some(duration) => duration,
            None => zero,
        },
        pause_duration: facts.pause_duration,
        microphone_type: class_or_unknown(&facts.microphone_name),
        system_audio_type: class_or_unknown(&facts.system_name),
        chunks_processed: facts.chunks_processed,
        transcript_segments: facts.transcript_segments,
        had_fatal_error: facts.had_fatal_error,
    }
}

/// No device name is told: of a device, one of three words.
pub proof fn only_classes_are_told(name: Option<String>)
    ensures
        told_class(name) == "Bluetooth"@ || told_class(name) == "Wired"@ || told_class(name)
            == "Unknown"@,
{
}

} // verus!
