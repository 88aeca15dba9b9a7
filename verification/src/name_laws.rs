//! What a stored name is read as, and what is told of a device by its name.

use crate::device::{read_as, AudioTranscriptionEngine, DeviceModel, DeviceNameError, DeviceType};
use crate::linux::sink_label;
use crate::text::{occurs_in, trimmed, without_suffixes};
use crate::text_laws::{
    a_part_occurs_between, decimal_reads_back, every_suffix_comes_off, is_blank, number, repeated,
    trimming_takes_off_white_space_only, what_is_around_a_part,
};
use crate::transcript::{device_class, segment_id, tells_choice, told_class, ModelChoice};
use vstd::prelude::*;

verus! {

/// A name is refused as empty exactly where there is nothing in it but white space, and
/// otherwise where it ends with no marker; a marker says which type it is. Whatever is
/// in front of it makes no difference.
pub proof fn a_marker_tells_the_type(name: Seq<char>, front: Seq<char>)
    ensures
        read_as(name, front) == Err::<DeviceModel, _>(DeviceNameError::Empty) <==> is_blank(
            name,
            0,
            name.len() as int,
        ),
        !is_blank(name, 0, name.len() as int) ==> {
            &&& read_as(name, front + "(input)"@) is Ok
            &&& read_as(name, front + "(input)"@)->Ok_0.device_type == DeviceType::Input
            &&& read_as(name, front + "(output)"@) is Ok
            &&& read_as(name, front + "(output)"@)->Ok_0.device_type == DeviceType::Output
        },
{
    reveal_strlit("(input)");
    reveal_strlit("(output)");
    let ends = trimming_takes_off_white_space_only(name);
    let input = front + "(input)"@;
    let output = front + "(output)"@;
    assert(input.subrange(front.len() as int, input.len() as int) =~= "(input)"@);
    assert(output.subrange(front.len() as int, output.len() as int) =~= "(output)"@);
    let end = output.len() as int;
    if "(input)"@.is_suffix_of(output) {
        assert(output.subrange(end - 7, end)[0] == '(');
        assert(output[end - 7] == 'o');
    }
}

/// A name that is read as a device ends with the marker of its type.
pub proof fn a_type_is_never_made_up(name: Seq<char>, lower: Seq<char>) -> (front: Seq<char>)
    requires
        read_as(name, lower) is Ok,
    ensures
        lower == front + if read_as(name, lower)->Ok_0.device_type == DeviceType::Input {
            "(input)"@
        } else {
            "(output)"@
        },
{
    let marker = if read_as(name, lower)->Ok_0.device_type == DeviceType::Input {
        "(input)"@
    } else {
        "(output)"@
    };
    let front = lower.take(lower.len() - marker.len());
    assert(lower =~= front + marker);
    front
}

/// The name of a device is what is left of its stored name without the markers of its
/// type at the end, and without the white space around that; nothing else is lost.
pub proof fn the_name_is_what_is_left(name: Seq<char>, lower: Seq<char>) -> (parts: (
    Seq<char>,
    Seq<char>,
    nat,
))
    requires
        read_as(name, lower) is Ok,
    ensures
        ({
            let device = read_as(name, lower)->Ok_0;
            let (before, behind, times) = parts;
            let marker = if device.device_type == DeviceType::Input {
                "(input)"@
            } else {
                "(output)"@
            };
            let bare = before + device.name + behind;
            &&& name == bare + repeated(marker, times)
            &&& !marker.is_suffix_of(bare)
            &&& is_blank(before, 0, before.len() as int)
            &&& is_blank(behind, 0, behind.len() as int)
            &&& trimmed(device.name) == device.name
        }),
{
    reveal_strlit("(input)");
    reveal_strlit("(output)");
    let device = read_as(name, lower)->Ok_0;
    let marker = device.device_type.marker();
    let times = every_suffix_comes_off(name, marker);
    let bare = without_suffixes(name, marker);
    let ends = trimming_takes_off_white_space_only(bare);
    let before = bare.take(ends.0);
    let behind = bare.skip(ends.1);
    assert(bare =~= before + device.name + behind);
    assert forall|i: int| 0 <= i < behind.len() implies crate::text::is_white_space(
        #[trigger] behind[i],
    ) by {
        assert(bare[ends.1 + i] == behind[i]);
    }
    assert forall|i: int| 0 <= i < before.len() implies crate::text::is_white_space(
        #[trigger] before[i],
    ) by {
        assert(bare[i] == before[i]);
    }
    crate::linux::trimming_keeps_tight_text(device.name);
    (before, behind, times)
}

/// A name that carries one marker only loses that one, and a name that carries none is
/// the label itself.
pub proof fn a_label_loses_one_marker(label: Seq<char>)
    requires
        !" (System Audio)"@.is_suffix_of(label),
        !" (output)"@.is_suffix_of(label),
    ensures
        sink_label(label) == label,
        sink_label(label + " (output)"@) == label,
        sink_label(label + " (System Audio)"@) == label,
        sink_label(label + " (System Audio) (output)"@) == label,
        sink_label(label + " (output) (System Audio)"@) == label,
{
    reveal_strlit(" (output)");
    reveal_strlit(" (System Audio)");
    reveal_strlit(" (System Audio) (output)");
    reveal_strlit(" (output) (System Audio)");
    let both = " (System Audio) (output)"@;
    let output = " (output)"@;
    let system = " (System Audio)"@;
    lemma_not_both(label);
    let one = label + output;
    let end = one.len() as int;
    assert(one.subrange(label.len() as int, end) =~= output);
    assert(one.take(label.len() as int) =~= label);
    if both.is_suffix_of(one) {
        assert(label =~= label.take(label.len() - 15) + system) by {
            assert forall|i: int| label.len() - 15 <= i < label.len() implies label[i]
                == system[i - (label.len() - 15)] by {
                assert(one.subrange(end - 24, end)[i - (end - 24)] == one[i]);
                assert(both[i - (end - 24)] == system[i - (end - 24)]);
            }
        }
        assert(label.subrange(label.len() - 15, label.len() as int) =~= system);
    }
    if system.is_suffix_of(one) {
        assert(one.subrange(end - 15, end)[13] == one[end - 2]);
        assert(one[end - 2] == 't');
    }
    let other = label + system;
    lemma_one_marker(label);
    crate::linux::shown_sink_name_gives_label_back(label);
    let twice = label + " (output) (System Audio)"@;
    let last = twice.len() as int;
    assert(twice =~= one + system);
    lemma_one_marker(one);
}

proof fn lemma_not_both(label: Seq<char>)
    requires
        !" (output)"@.is_suffix_of(label),
    ensures
        !" (System Audio) (output)"@.is_suffix_of(label),
{
    reveal_strlit(" (output)");
    reveal_strlit(" (System Audio) (output)");
    let both = " (System Audio) (output)"@;
    if both.is_suffix_of(label) {
        let end = label.len() as int;
        assert(label.subrange(end - 9, end) =~= " (output)"@) by {
            assert forall|i: int| 0 <= i < 9 implies label[end - 9 + i] == " (output)"@[i] by {
                assert(label.subrange(end - 24, end)[15 + i] == label[end - 9 + i]);
            }
        }
    }
}

proof fn lemma_one_marker(name: Seq<char>)
    ensures
        sink_label(name + " (System Audio)"@) == if " (output)"@.is_suffix_of(name) {
            name.take(name.len() - " (output)"@.len())
        } else {
            name
        },
{
    reveal_strlit(" (output)");
    reveal_strlit(" (System Audio)");
    reveal_strlit(" (System Audio) (output)");
    let all = name + " (System Audio)"@;
    let end = all.len() as int;
    assert(all.subrange(name.len() as int, end) =~= " (System Audio)"@);
    assert(all.take(name.len() as int) =~= name);
    assert(all[end - 2] == 'o');
    if " (System Audio) (output)"@.is_suffix_of(all) {
        assert(all.subrange(end - 24, end)[22] == 't');
    }
}

/// Engines are shown under names of their own, those of one family under that of the
/// family.
pub proof fn engines_are_told_apart(a: AudioTranscriptionEngine, b: AudioTranscriptionEngine)
    ensures
        a.shown() == b.shown() <==> a == b,
        "Whisper"@.is_prefix_of(a.shown()) <==> !(a is Deepgram),
        "WhisperLarge"@.is_prefix_of(a.shown()) <==> a is WhisperDistilLargeV3
            || a is WhisperLargeV3 || a is WhisperLargeV3Turbo,
        "WhisperLargeV3"@.is_prefix_of(a.shown()) <==> a is WhisperLargeV3
            || a is WhisperLargeV3Turbo,
        "WhisperLargeV3"@ == a.shown() <==> a is WhisperLargeV3,
{
    reveal_strlit("Whisper");
    reveal_strlit("Deepgram");
    reveal_strlit("WhisperTiny");
    reveal_strlit("WhisperLarge");
    reveal_strlit("WhisperLargeV3");
    reveal_strlit("WhisperLargeV3Turbo");
    assert("Whisper"@ =~= "WhisperTiny"@.subrange(0, 7));
    assert("Whisper"@ =~= "WhisperLarge"@.subrange(0, 7));
    assert("Whisper"@ =~= "WhisperLargeV3"@.subrange(0, 7));
    assert("Whisper"@ =~= "WhisperLargeV3Turbo"@.subrange(0, 7));
    assert("WhisperLarge"@ =~= "WhisperLarge"@.subrange(0, 12));
    assert("WhisperLarge"@ =~= "WhisperLargeV3"@.subrange(0, 12));
    assert("WhisperLarge"@ =~= "WhisperLargeV3Turbo"@.subrange(0, 12));
    assert("WhisperLargeV3"@ =~= "WhisperLargeV3"@.subrange(0, 14));
    assert("WhisperLargeV3"@ =~= "WhisperLargeV3Turbo"@.subrange(0, 14));
    assert("Deepgram"@[0] == 'D');
    assert("Deepgram"@.subrange(0, 7)[0] == 'D');
    assert("Whisper"@[0] == 'W');
    assert("WhisperTiny"@[0] == 'W');
    assert("WhisperLarge"@[0] == 'W');
}

// ---------------------------------------------------------------------------
// What is told
// ---------------------------------------------------------------------------

/// The words that wireless devices are known by.
pub open spec fn wireless_words() -> Seq<Seq<char>> {
    seq!["bluetooth"@, "airpods"@, "beats"@, "headphones"@, "bt "@, "wireless"@]
}

/// Whatever stands around one of the words, a name that holds it is told as wireless.
pub proof fn a_wireless_word_is_enough(before: Seq<char>, word: Seq<char>, behind: Seq<char>)
    requires
        wireless_words().contains(word),
    ensures
        device_class(before + word + behind) == "Bluetooth"@,
{
    a_part_occurs_between(before, word, behind);
    let words = wireless_words();
    let i = choose|i: int| 0 <= i < words.len() && words[i] == word;
    assert(i == 0 || i == 1 || i == 2 || i == 3 || i == 4 || i == 5);
}

/// A name that is told as wireless holds one of the words; any other is told as wired.
pub proof fn wireless_takes_a_word(lower: Seq<char>) -> (parts: (Seq<char>, Seq<char>, Seq<char>))
    requires
        device_class(lower) != "Wired"@,
    ensures
        device_class(lower) == "Bluetooth"@,
        wireless_words().contains(parts.1),
        lower == parts.0 + parts.1 + parts.2,
{
    let words = wireless_words();
    assert(words[0] == "bluetooth"@ && words[1] == "airpods"@ && words[2] == "beats"@);
    assert(words[3] == "headphones"@ && words[4] == "bt "@ && words[5] == "wireless"@);
    let i = choose|i: int| 0 <= i < words.len() && occurs_in(lower, #[trigger] words[i]);
    let around = what_is_around_a_part(lower, words[i]);
    (around.0, words[i], around.1)
}

/// A device is told as unknown exactly where it has no name.
pub proof fn only_nameless_devices_are_unknown(name: Option<String>)
    ensures
        told_class(name) == "Unknown"@ <==> name is None,
{
    reveal_strlit("Unknown");
    reveal_strlit("Wired");
    reveal_strlit("Bluetooth");
    assert("Unknown"@[0] == 'U');
    assert("Wired"@[0] == 'W');
    assert("Bluetooth"@[0] == 'B');
}

/// A model that was chosen is told as it is, and nothing else is told of it; where none
/// was chosen, both the provider and the model are unknown.
pub proof fn a_chosen_model_is_told(choice: ModelChoice, told: ModelChoice)
    ensures
        tells_choice(told, Some(choice)) <==> told.provider == choice.provider && told.model
            == choice.model,
        tells_choice(told, None) <==> told.provider@ == "unknown"@ && told.model@ == "unknown"@,
{
}

/// The number of a segment can be read off its identifier.
pub proof fn a_segment_id_tells_the_number(sequence_id: u64)
    ensures
        segment_id(sequence_id).take("seg_"@.len() as int) == "seg_"@,
        number(segment_id(sequence_id).skip("seg_"@.len() as int)) == sequence_id,
        segment_id(sequence_id).len() > "seg_"@.len(),
{
    let all = segment_id(sequence_id);
    decimal_reads_back(sequence_id as nat);
    assert(all.take("seg_"@.len() as int) =~= "seg_"@);
    assert(all.skip("seg_"@.len() as int) =~= crate::text::decimal(sequence_id as nat));
}

} // verus!
