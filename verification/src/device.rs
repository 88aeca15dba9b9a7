//! Audio devices and the names they are stored under.

use crate::text::{
    ascii_lowercase, ends_with, is_white_space, joined, lowercase, strip_suffixes, to_lowercase,
    trim, trimmed, without_suffixes,
};
use vstd::prelude::*;
use vstd::utf8::*;

verus! {

/// The engine that turns captured audio into text.
#[derive(Clone, Copy, Debug, PartialEq, Eq, Structural)]
pub enum AudioTranscriptionEngine {
    Deepgram,
    WhisperTiny,
    WhisperDistilLargeV3,
    WhisperLargeV3Turbo,
    WhisperLargeV3,
}

impl AudioTranscriptionEngine {
    /// The name under which an engine is shown. The distilled model goes by the
    /// name of the model that it was distilled from.
    pub open spec fn shown(self) -> Seq<char> {
        match self {
            AudioTranscriptionEngine::Deepgram => "Deepgram"@,
            AudioTranscriptionEngine::WhisperTiny => "WhisperTiny"@,
            AudioTranscriptionEngine::WhisperDistilLargeV3 => "WhisperLarge"@,
            AudioTranscriptionEngine::WhisperLargeV3Turbo => "WhisperLargeV3Turbo"@,
            AudioTranscriptionEngine::WhisperLargeV3 => "WhisperLargeV3"@,
        }
    }

    /// The name under which the engine is shown.
    pub fn to_string(&self) -> (text: String)
        ensures
            text@ == self.shown(),
    {
        let text = match self {
            AudioTranscriptionEngine::Deepgram => "Deepgram",
            AudioTranscriptionEngine::WhisperTiny => "WhisperTiny",
            AudioTranscriptionEngine::WhisperDistilLargeV3 => "WhisperLarge",
            AudioTranscriptionEngine::WhisperLargeV3Turbo => "WhisperLargeV3Turbo",
            AudioTranscriptionEngine::WhisperLargeV3 => "WhisperLargeV3",
        };
        text.to_owned()
    }
}

impl Default for AudioTranscriptionEngine {
    fn default() -> (engine: Self)
        ensures
            engine == AudioTranscriptionEngine::WhisperLargeV3Turbo,
    {
        AudioTranscriptionEngine::WhisperLargeV3Turbo
    }
}

/// The operating system that the program runs on.
#[derive(Clone, Copy, Debug, PartialEq, Eq, Structural)]
pub enum Platform {
    Linux,
    MacOs,
    Windows,
    Other,
}

/// Whether a device is running, and whether it is paused.
#[derive(Clone, Copy, Debug)]
pub struct DeviceControl {
    pub is_running: bool,
    pub is_paused: bool,
}

/// The direction of an audio device.
#[derive(Clone, Copy, Debug, PartialEq, Eq, Hash, Structural)]
pub enum DeviceType {
    Input,
    Output,
}

impl DeviceType {
    /// The marker that ends the stored name of a device of this type.
    pub open spec fn marker(self) -> Seq<char> {
        match self {
            DeviceType::Input => "(input)"@,
            DeviceType::Output => "(output)"@,
        }
    }
}

/// An audio device: its name, and the direction that it is used in.
#[derive(Debug, PartialEq, Eq, Hash)]
pub struct AudioDevice {
    pub name: String,
    pub device_type: DeviceType,
}

/// What an [`AudioDevice`] is: a name of characters and a direction.
#[verifier::ext_equal]
pub struct DeviceModel {
    pub name: Seq<char>,
    pub device_type: DeviceType,
}

impl View for AudioDevice {
    type V = DeviceModel;

    open spec fn view(&self) -> DeviceModel {
        DeviceModel { name: self.name@, device_type: self.device_type }
    }
}

impl Clone for AudioDevice {
    fn clone(&self) -> (copy: Self)
        ensures
            copy == *self,
    {
        AudioDevice { name: self.name.clone(), device_type: self.device_type }
    }
}

/// Why a string is not the stored name of a device.
#[derive(Clone, Copy, Debug, PartialEq, Eq, Structural)]
pub enum DeviceNameError {
    /// There is nothing in the string but white space.
    Empty,
    /// The string does not say whether the device is an input or an output.
    MissingType,
}

impl DeviceNameError {
    /// The message for an error.
    pub open spec fn text(self) -> Seq<char> {
        match self {
            DeviceNameError::Empty => "Device name cannot be empty"@,
            DeviceNameError::MissingType => "Device type (input/output) not specified in the name"@,
        }
    }

    /// The message for the error.
    pub fn message(&self) -> (text: &'static str)
        ensures
            text@ == self.text(),
    {
        match self {
            DeviceNameError::Empty => "Device name cannot be empty",
            DeviceNameError::MissingType => "Device type (input/output) not specified in the name",
        }
    }
}

/// The stored name of a device: its name, a space, and the marker of its type.
pub open spec fn stored_name(device: DeviceModel) -> Seq<char> {
    device.name + " "@ + device.device_type.marker()
}

/// The device that a stored name stands for, given the name in lower case too. The
/// marker is recognised whatever its case, and taken off (as often as it occurs at
/// the end) where it is in lower case.
pub open spec fn read_as(name: Seq<char>, lower: Seq<char>) -> Result<DeviceModel, DeviceNameError> {
    if trimmed(name).len() == 0 {
        Err(DeviceNameError::Empty)
    } else if DeviceType::Input.marker().is_suffix_of(lower) {
        Ok(
            DeviceModel {
                name: trimmed(without_suffixes(name, DeviceType::Input.marker())),
                device_type: DeviceType::Input,
            },
        )
    } else if DeviceType::Output.marker().is_suffix_of(lower) {
        Ok(
            DeviceModel {
                name: trimmed(without_suffixes(name, DeviceType::Output.marker())),
                device_type: DeviceType::Output,
            },
        )
    } else {
        Err(DeviceNameError::MissingType)
    }
}

/// The device that a stored name stands for.
pub open spec fn parsed(name: Seq<char>) -> Result<DeviceModel, DeviceNameError> {
    read_as(name, lowercase(name))
}

/// The model of a result that holds a device.
pub open spec fn modelled<E>(result: Result<AudioDevice, E>) -> Result<DeviceModel, E> {
    match result {
        Ok(device) => Ok(device@),
        Err(e) => Err(e),
    }
}

impl AudioDevice {
    /// A device with the given name and type.
    pub fn new(name: String, device_type: DeviceType) -> (device: Self)
        ensures
            device.name == name,
            device.device_type == device_type,
    {
        AudioDevice { name, device_type }
    }

    /// The device that a stored name stands for, given the name in lower case too.
    pub fn from_lowered(name: &str, lower: &str) -> (result: Result<Self, DeviceNameError>)
        ensures
            modelled(result) == read_as(name@, lower@),
    {
        proof {
            reveal_strlit("(input)");
            reveal_strlit("(output)");
        }
        if trim(name).is_empty() {
            return Err(DeviceNameError::Empty);
        }
        if ends_with(lower, "(input)") {
            let bare = trim(strip_suffixes(name, "(input)"));
            Ok(AudioDevice::new(bare.to_owned(), DeviceType::Input))
        } else if ends_with(lower, "(output)") {
            let bare = trim(strip_suffixes(name, "(output)"));
            Ok(AudioDevice::new(bare.to_owned(), DeviceType::Output))
        } else {
            Err(DeviceNameError::MissingType)
        }
    }

    /// The device that a stored name stands for.
    ///
    /// A name that ends with a marker in lower case is always accepted. The
    /// stored name of a device gives that device back, its name without white
    /// space around it.
    pub fn from_name(name: &str) -> (result: Result<Self, DeviceNameError>)
        ensures
            modelled(result) == parsed(name@),
            is_ascii_chars(name@) ==> modelled(result) == read_as(name@, ascii_lowercase(name@)),
            forall|t: DeviceType| #[trigger]
                t.marker().is_suffix_of(name@) ==> result is Ok && result->Ok_0.device_type == t,
            forall|device: DeviceModel|
                name@ == #[trigger] stored_name(device) ==> modelled(result) == Ok::<
                    DeviceModel,
                    DeviceNameError,
                >(DeviceModel { name: trimmed(device.name), device_type: device.device_type }),
    {
        let lower = to_lowercase(name);
        proof {
            assert forall|t: DeviceType| #[trigger] t.marker().is_suffix_of(name@) implies parsed(
                name@,
            ) is Ok && parsed(name@)->Ok_0.device_type == t by {
                lemma_marked_name(name@, t, lower@);
            }
            assert forall|device: DeviceModel| name@ == #[trigger] stored_name(device) implies parsed(
                name@,
            ) == Ok::<DeviceModel, DeviceNameError>(
                DeviceModel { name: trimmed(device.name), device_type: device.device_type },
            ) by {
                lemma_stored_name_ends_with_marker(device);
                lemma_marked_name(name@, device.device_type, lower@);
                lemma_stored_name_strips(device);
            }
        }
        Self::from_lowered(name, lower.as_str())
    }

    /// The name that the device is stored under.
    pub fn to_string(&self) -> (text: String)
        ensures
            text@ == stored_name(self@),
    {
        let named = joined(self.name.as_str(), " ");
        match self.device_type {
            DeviceType::Input => joined(named.as_str(), "(input)"),
            DeviceType::Output => joined(named.as_str(), "(output)"),
        }
    }
}

/// The device that a stored name stands for.
pub fn parse_audio_device(name: &str) -> (result: Result<AudioDevice, DeviceNameError>)
    ensures
        modelled(result) == parsed(name@),
        is_ascii_chars(name@) ==> modelled(result) == read_as(name@, ascii_lowercase(name@)),
        forall|t: DeviceType| #[trigger]
            t.marker().is_suffix_of(name@) ==> result is Ok && result->Ok_0.device_type == t,
        forall|device: DeviceModel|
            name@ == #[trigger] stored_name(device) ==> modelled(result) == Ok::<
                DeviceModel,
                DeviceNameError,
            >(DeviceModel { name: trimmed(device.name), device_type: device.device_type }),
{
    AudioDevice::from_name(name)
}

/// Two devices that are stored under the same name are the same device.
pub proof fn stored_names_are_distinct(a: DeviceModel, b: DeviceModel)
    requires
        stored_name(a) == stored_name(b),
    ensures
        a == b,
{
    reveal_strlit(" ");
    reveal_strlit("(input)");
    reveal_strlit("(output)");
    let text = stored_name(a);
    let end = text.len() - 1;
    assert(stored_name(a)[end - 5] == if a.device_type is Input {
        'i'
    } else {
        'u'
    });
    assert(stored_name(b)[end - 5] == if b.device_type is Input {
        'i'
    } else {
        'u'
    });
    let tail = a.device_type.marker().len() + 1;
    assert(a.name =~= text.take(text.len() - tail));
    assert(b.name =~= text.take(text.len() - tail));
}

// ---------------------------------------------------------------------------
// Lemmas
// ---------------------------------------------------------------------------

/// A string whose last character is not white space is not blank.
proof fn lemma_not_blank(s: Seq<char>)
    requires
        s.len() > 0,
        !is_white_space(s.last()),
    ensures
        trimmed(s).len() > 0,
    decreases s.len(),
{
    if is_white_space(s[0]) {
        assert(s.drop_first().last() == s.last());
        lemma_not_blank(s.drop_first());
    }
}

/// A space at the end makes no difference to trimming.
pub(crate) proof fn lemma_trim_ignores_last_space(s: Seq<char>)
    ensures
        trimmed(s.push(' ')) == trimmed(s),
    decreases s.len(),
{
    if s.len() == 0 {
        assert(s.push(' ').drop_first() == s);
    } else if is_white_space(s[0]) {
        assert(s.push(' ').drop_first() == s.drop_first().push(' '));
        lemma_trim_ignores_last_space(s.drop_first());
    } else {
        assert(s.push(' ').drop_last() == s);
    }
}

/// A name that ends with a marker is recognised as of that type.
proof fn lemma_marked_name(name: Seq<char>, t: DeviceType, lower: Seq<char>)
    requires
        t.marker().is_suffix_of(name),
        lower == lowercase(name),
        forall|from: int|
            0 <= from <= name.len() && is_ascii_chars(#[trigger] name.skip(from))
                ==> ascii_lowercase(name.skip(from)).is_suffix_of(lower),
    ensures
        parsed(name) is Ok,
        parsed(name)->Ok_0.device_type == t,
        parsed(name)->Ok_0.name == trimmed(without_suffixes(name, t.marker())),
{
    reveal_strlit("(input)");
    reveal_strlit("(output)");
    let marker = t.marker();
    let from = name.len() - marker.len();
    assert(name.skip(from) =~= marker);
    assert(ascii_lowercase(marker) =~= marker);
    assert(marker.is_suffix_of(lower));
    assert(name.last() == marker.last());
    lemma_not_blank(name);
    if t is Output {
        let end = lower.len() as int;
        assert(lower.subrange(end - 8, end)[1] == 'o');
        if DeviceType::Input.marker().is_suffix_of(lower) {
            assert(lower.subrange(end - 7, end)[0] == '(');
            assert(lower[end - 7] == 'o');
        }
    }
}

proof fn lemma_stored_name_ends_with_marker(device: DeviceModel)
    ensures
        device.device_type.marker().is_suffix_of(stored_name(device)),
{
    let marker = device.device_type.marker();
    let name = stored_name(device);
    assert(name.subrange(name.len() - marker.len(), name.len() as int) =~= marker);
}

/// Taking the markers off a stored name leaves the name of the device.
proof fn lemma_stored_name_strips(device: DeviceModel)
    ensures
        trimmed(without_suffixes(stored_name(device), device.device_type.marker())) == trimmed(
            device.name,
        ),
{
    reveal_strlit(" ");
    reveal_strlit("(input)");
    reveal_strlit("(output)");
    let marker = device.device_type.marker();
    let name = stored_name(device);
    let rest = name.take(name.len() - marker.len());
    lemma_stored_name_ends_with_marker(device);
    assert(rest =~= device.name.push(' '));
    if marker.is_suffix_of(rest) {
        let end = rest.len() as int;
        assert(rest.subrange(end - marker.len(), end)[marker.len() - 1] == ')');
        assert(rest.last() == ' ');
    }
    assert(without_suffixes(rest, marker) == rest);
    lemma_trim_ignores_last_space(device.name);
}

} // verus!
