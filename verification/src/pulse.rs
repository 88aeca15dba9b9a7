//! Capture sources of a PulseAudio/PipeWire server: what the server reports is
//! turned into the rows of a picker, and a stored row is turned back into the
//! server's name for it.

use crate::text::{enclosed, joined, optional, position_of, same_text, texts};
use vstd::prelude::*;

verus! {

// ---------------------------------------------------------------------------
// Labels
// ---------------------------------------------------------------------------

/// The descriptions and names of a list, as characters.
pub open spec fn described(entries: Seq<(String, String)>) -> Seq<(Seq<char>, Seq<char>)> {
    entries.map_values(|e: (String, String)| (e.0@, e.1@))
}

/// Another entry of the list has the same description as entry `i`.
pub open spec fn is_shared(entries: Seq<(Seq<char>, Seq<char>)>, i: int) -> bool {
    exists|j: int| 0 <= j < entries.len() && j != i && (#[trigger] entries[j]).0 == entries[i].0
}

/// A description with a server name behind it, in square brackets.
pub open spec fn bracketed(description: Seq<char>, name: Seq<char>) -> Seq<char> {
    description + " ["@ + name + "]"@
}

/// What the picker shows for entry `i`: its description, with the server name in
/// brackets where the description alone would not tell the entry apart.
pub open spec fn label(entries: Seq<(Seq<char>, Seq<char>)>, i: int) -> Seq<char> {
    if is_shared(entries, i) {
        bracketed(entries[i].0, entries[i].1)
    } else {
        entries[i].0
    }
}

/// All labels of a list, in its order.
pub open spec fn labels(entries: Seq<(Seq<char>, Seq<char>)>) -> Seq<Seq<char>> {
    Seq::new(entries.len(), |i: int| label(entries, i))
}

/// Whether another entry has the description of entry `at`.
fn shares_description(entries: &[(String, String)], at: usize) -> (shared: bool)
    requires
        at < entries@.len(),
    ensures
        shared == is_shared(described(entries@), at as int),
{
    let ghost model = described(entries@);
    let mut other: usize = 0;
    while other < entries.len()
        invariant
            at < entries@.len(),
            other <= entries@.len(),
            model == described(entries@),
            forall|j: int| 0 <= j < other && j != at ==> (#[trigger] model[j]).0 != model[at as int].0,
        decreases entries@.len() - other,
    {
        proof {
            assert(model[other as int] == (entries@[other as int].0@, entries@[other as int].1@));
            assert(model[at as int] == (entries@[at as int].0@, entries@[at as int].1@));
        }
        if other != at && same_text(entries[other].0.as_str(), entries[at].0.as_str()) {
            return true;
        }
        other = other + 1;
    }
    false
}

/// The labels of a list of descriptions and server names.
///
/// Descriptions are not unique: two identical headsets, or several outputs of one
/// graphics card, are routinely described identically. Square brackets are used
/// rather than parentheses so that a label cannot be mistaken for one of the
/// markers that are appended to device names.
pub fn build_labels(entries: &[(String, String)]) -> (built: Vec<String>)
    ensures
        texts(built@) == labels(described(entries@)),
{
    let ghost model = described(entries@);
    let mut built: Vec<String> = Vec::new();
    let mut at: usize = 0;
    while at < entries.len()
        invariant
            at <= entries@.len(),
            model == described(entries@),
            built@.len() == at,
            forall|i: int| 0 <= i < at ==> (#[trigger] built@[i])@ == label(model, i),
        decreases entries@.len() - at,
    {
        proof {
            assert(model[at as int] == (entries@[at as int].0@, entries@[at as int].1@));
        }
        if shares_description(entries, at) {
            let open = joined(entries[at].0.as_str(), " [");
            built.push(enclosed(open.as_str(), entries[at].1.as_str(), "]"));
        } else {
            built.push(entries[at].0.clone());
        }
        at = at + 1;
    }
    proof {
        assert(texts(built@) =~= labels(model));
    }
    built
}

// ---------------------------------------------------------------------------
// Resolving a stored row
// ---------------------------------------------------------------------------

/// An entry that a stored row can stand for.
#[verifier::ext_equal]
pub struct Candidate {
    pub label: Seq<char>,
    pub description: Seq<char>,
    pub name: Seq<char>,
}

/// The candidates of a list of `(label, description, name)`.
pub open spec fn candidates(entries: Seq<(String, String, String)>) -> Seq<Candidate> {
    entries.map_values(
        |e: (String, String, String)| Candidate { label: e.0@, description: e.1@, name: e.2@ },
    )
}

/// The labels of a list of candidates.
pub open spec fn labels_of(entries: Seq<Candidate>) -> Seq<Seq<char>> {
    entries.map_values(|c: Candidate| c.label)
}

/// The descriptions of a list of candidates.
pub open spec fn descriptions_of(entries: Seq<Candidate>) -> Seq<Seq<char>> {
    entries.map_values(|c: Candidate| c.description)
}

/// The server name that a stored row stands for: that of the first entry with
/// this label, else that of the first entry with this description.
pub open spec fn resolved(entries: Seq<Candidate>, stored: Seq<char>) -> Option<Seq<char>> {
    match labels_of(entries).index_of_first(stored) {
        Some(i) => Some(entries[i].name),
        None => match descriptions_of(entries).index_of_first(stored) {
            Some(i) => Some(entries[i].name),
            None => None,
        },
    }
}

/// No entry goes by the stored row.
#[derive(Debug, Clone, PartialEq, Eq)]
pub struct NotFound {
    pub kind: String,
    pub stored: String,
}

/// The message for a row that was not found.
pub open spec fn not_found_text(kind: Seq<char>, stored: Seq<char>) -> Seq<char> {
    "No PulseAudio "@ + kind + " found matching '"@ + stored + "'"@
}

impl NotFound {
    /// The message for a row that was not found.
    pub open spec fn text(self) -> Seq<char> {
        not_found_text(self.kind@, self.stored@)
    }

    /// The message.
    pub fn message(&self) -> (text: String)
        ensures
            text@ == self.text(),
    {
        let start = enclosed("No PulseAudio ", self.kind.as_str(), " found matching '");
        enclosed(start.as_str(), self.stored.as_str(), "'")
    }
}

/// Resolve a stored row to the server's name for it.
///
/// Tried in order: the label (what is stored today), then the bare description
/// (what was stored before labels were told apart). Where several entries share
/// the stored description, the first of them is taken.
pub fn resolve_stored(entries: &[(String, String, String)], stored: &str, kind: &str) -> (result:
    Result<String, NotFound>)
    ensures
        match resolved(candidates(entries@), stored@) {
            Some(name) => result is Ok && result->Ok_0@ == name,
            None => result is Err && result->Err_0.kind@ == kind@ && result->Err_0.stored@
                == stored@,
        },
{
    let ghost model = candidates(entries@);
    let mut label_list: Vec<String> = Vec::new();
    let mut description_list: Vec<String> = Vec::new();
    let mut at: usize = 0;
    while at < entries.len()
        invariant
            at <= entries@.len(),
            model == candidates(entries@),
            label_list@.len() == at,
            description_list@.len() == at,
            forall|i: int| 0 <= i < at ==> (#[trigger] label_list@[i])@ == model[i].label,
            forall|i: int|
                0 <= i < at ==> (#[trigger] description_list@[i])@ == model[i].description,
        decreases entries@.len() - at,
    {
        label_list.push(entries[at].0.clone());
        description_list.push(entries[at].1.clone());
        at = at + 1;
    }
    proof {
        assert(texts(label_list@) =~= labels_of(model));
        assert(texts(description_list@) =~= descriptions_of(model));
    }
    match position_of(&label_list, stored) {
        Some(i) => Ok(entries[i].2.clone()),
        None => match position_of(&description_list, stored) {
            Some(i) => Ok(entries[i].2.clone()),
            None => Err(NotFound { kind: kind.to_owned(), stored: stored.to_owned() }),
        },
    }
}

// ---------------------------------------------------------------------------
// Sinks
// ---------------------------------------------------------------------------

/// What the server reports of a sink.
#[derive(Debug, Clone, PartialEq, Eq)]
pub struct SinkInfo {
    pub name: Option<String>,
    pub description: Option<String>,
    pub monitor_source_name: Option<String>,
}

/// A sink, with what is needed to offer it as a "System Audio" capture device.
#[derive(Debug, Clone, PartialEq, Eq)]
pub struct PulseSink {
    pub description: String,
    /// The sink's own server name. This is what the server gives as its default
    /// output; it is not the name of the source to capture from.
    pub sink_name: String,
    /// The source that the sink is captured from.
    pub monitor_source_name: String,
    /// What the picker shows. Equal to `description`, except where several sinks
    /// share one description: then the server name of the monitor is appended.
    pub label: String,
}

/// What a [`PulseSink`] is, in characters.
#[verifier::ext_equal]
pub struct SinkModel {
    pub description: Seq<char>,
    pub sink_name: Seq<char>,
    pub monitor_source_name: Seq<char>,
    pub label: Seq<char>,
}

impl View for PulseSink {
    type V = SinkModel;

    open spec fn view(&self) -> SinkModel {
        SinkModel {
            description: self.description@,
            sink_name: self.sink_name@,
            monitor_source_name: self.monitor_source_name@,
            label: self.label@,
        }
    }
}

/// An optional text, or nothing at all.
pub open spec fn text_or_empty(text: Option<String>) -> Seq<char> {
    match optional(text) {
        Some(chars) => chars,
        None => Seq::empty(),
    }
}

/// An optional text, or the given one.
pub open spec fn text_or(text: Option<String>, otherwise: Seq<char>) -> Seq<char> {
    match optional(text) {
        Some(chars) => chars,
        None => otherwise,
    }
}

impl SinkInfo {
    /// The sink has a monitor source, so that it can be captured.
    pub open spec fn is_capturable(self) -> bool {
        text_or_empty(self.monitor_source_name).len() > 0
    }

    /// The sink as it is listed, but for its label.
    pub open spec fn entry(self) -> SinkModel {
        SinkModel {
            description: text_or(self.description, "Unknown output"@),
            sink_name: text_or_empty(self.name),
            monitor_source_name: text_or_empty(self.monitor_source_name),
            label: Seq::empty(),
        }
    }
}

/// The sinks that can be captured, in the order in which the server reports them.
pub open spec fn sink_entries(reports: Seq<SinkInfo>) -> Seq<SinkModel> {
    reports.filter(|r: SinkInfo| r.is_capturable()).map_values(|r: SinkInfo| r.entry())
}

/// The descriptions of sinks with the names that tell them apart.
pub open spec fn sink_pairs(entries: Seq<SinkModel>) -> Seq<(Seq<char>, Seq<char>)> {
    entries.map_values(|e: SinkModel| (e.description, e.monitor_source_name))
}

/// The sinks that are offered for a server's report.
pub open spec fn offered_sinks(reports: Seq<SinkInfo>) -> Seq<SinkModel> {
    let entries = sink_entries(reports);
    Seq::new(
        entries.len(),
        |i: int| SinkModel { label: label(sink_pairs(entries), i), ..entries[i] },
    )
}

/// The models of a list of sinks.
pub open spec fn sink_models(sinks: Seq<PulseSink>) -> Seq<SinkModel> {
    sinks.map_values(|s: PulseSink| s@)
}

fn text_or_default(text: &Option<String>, otherwise: &str) -> (chosen: String)
    ensures
        chosen@ == text_or(*text, otherwise@),
{
    match text {
        Some(chars) => chars.clone(),
        None => otherwise.to_owned(),
    }
}

fn text_or_nothing(text: &Option<String>) -> (chosen: String)
    ensures
        chosen@ == text_or_empty(*text),
{
    match text {
        Some(chars) => chars.clone(),
        None => String::new(),
    }
}

/// The sinks that a server reports, for use as "System Audio" capture devices:
/// those that have a monitor source, labelled so that they can be told apart.
pub fn list_sinks(reports: &Vec<SinkInfo>) -> (sinks: Vec<PulseSink>)
    ensures
        sink_models(sinks@) == offered_sinks(reports@),
{
    let ghost keep = |r: SinkInfo| r.is_capturable();
    let mut raw: Vec<(String, String, String)> = Vec::new();
    let mut pairs: Vec<(String, String)> = Vec::new();
    let mut at: usize = 0;
    proof {
        assert(reports@.take(0).filter(keep) =~= Seq::<SinkInfo>::empty()) by {
            reveal(Seq::filter);
        }
    }
    while at < reports.len()
        invariant
            at <= reports@.len(),
            keep == (|r: SinkInfo| r.is_capturable()),
            raw@.len() == reports@.take(at as int).filter(keep).len(),
            pairs@.len() == raw@.len(),
            forall|i: int|
                0 <= i < raw@.len() ==> {
                    let e = reports@.take(at as int).filter(keep)[i].entry();
                    &&& (#[trigger] raw@[i]).0@ == e.description
                    &&& raw@[i].1@ == e.sink_name
                    &&& raw@[i].2@ == e.monitor_source_name
                },
            forall|i: int|
                0 <= i < raw@.len() ==> (#[trigger] pairs@[i]).0@ == raw@[i].0@ && pairs@[i].1@
                    == raw@[i].2@,
        decreases reports@.len() - at,
    {
        proof {
            reveal(Seq::filter);
            assert(reports@.take(at + 1).drop_last() =~= reports@.take(at as int));
        }
        let monitor = text_or_nothing(&reports[at].monitor_source_name);
        if !monitor.as_str().is_empty() {
            let description = text_or_default(&reports[at].description, "Unknown output");
            let sink_name = text_or_nothing(&reports[at].name);
            pairs.push((description.clone(), monitor.clone()));
            raw.push((description, sink_name, monitor));
        }
        at = at + 1;
    }
    let ghost entries = sink_entries(reports@);
    proof {
        assert(reports@.take(at as int) =~= reports@);
        assert(described(pairs@) =~= sink_pairs(entries));
    }
    let label_list = build_labels(pairs.as_slice());
    let mut sinks: Vec<PulseSink> = Vec::new();
    let mut next: usize = 0;
    proof {
        assert(label_list@.len() == texts(label_list@).len());
    }
    while next < raw.len()
        invariant
            next <= raw@.len(),
            raw@.len() == entries.len(),
            label_list@.len() == entries.len(),
            texts(label_list@) == labels(sink_pairs(entries)),
            forall|i: int|
                0 <= i < raw@.len() ==> {
                    &&& (#[trigger] raw@[i]).0@ == entries[i].description
                    &&& raw@[i].1@ == entries[i].sink_name
                    &&& raw@[i].2@ == entries[i].monitor_source_name
                },
            sinks@.len() == next,
            forall|i: int|
                0 <= i < next ==> (#[trigger] sinks@[i])@ == (SinkModel {
                    label: label(sink_pairs(entries), i),
                    ..entries[i]
                }),
        decreases raw@.len() - next,
    {
        proof {
            assert(texts(label_list@)[next as int] == label_list@[next as int]@);
        }
        sinks.push(
            PulseSink {
                description: raw[next].0.clone(),
                sink_name: raw[next].1.clone(),
                monitor_source_name: raw[next].2.clone(),
                label: label_list[next].clone(),
            },
        );
        next = next + 1;
    }
    proof {
        assert(sink_models(sinks@) =~= offered_sinks(reports@));
    }
    sinks
}

/// The candidates that sinks make for a stored "System Audio" row.
pub open spec fn sink_candidates(sinks: Seq<SinkModel>) -> Seq<Candidate> {
    sinks.map_values(
        |s: SinkModel| Candidate {
            label: s.label,
            description: s.description,
            name: s.monitor_source_name,
        },
    )
}

/// The monitor source that a stored "System Audio" row stands for, among the sinks
/// that the server reports.
pub open spec fn monitor_source(reports: Seq<SinkInfo>, stored: Seq<char>) -> Option<Seq<char>> {
    resolved(sink_candidates(offered_sinks(reports)), stored)
}

/// Resolve a stored "System Audio" row to the monitor source of its sink, among
/// the sinks that the server reports. Accepts the label, or a bare description.
pub fn resolve_monitor_source(reports: &Vec<SinkInfo>, stored: &str) -> (result: Result<
    String,
    NotFound,
>)
    ensures
        match monitor_source(reports@, stored@) {
            Some(name) => result is Ok && result->Ok_0@ == name,
            None => result is Err && result->Err_0.kind@ == "sink"@ && result->Err_0.stored@
                == stored@,
        },
{
    let sinks = list_sinks(reports);
    let ghost models = offered_sinks(reports@);
    let mut entries: Vec<(String, String, String)> = Vec::new();
    let mut at: usize = 0;
    proof {
        assert(sink_models(sinks@).len() == sinks@.len());
    }
    while at < sinks.len()
        invariant
            at <= sinks@.len(),
            sink_models(sinks@) == models,
            models.len() == sinks@.len(),
            entries@.len() == at,
            forall|i: int|
                0 <= i < at ==> {
                    &&& (#[trigger] entries@[i]).0@ == models[i].label
                    &&& entries@[i].1@ == models[i].description
                    &&& entries@[i].2@ == models[i].monitor_source_name
                },
        decreases sinks@.len() - at,
    {
        proof {
            assert(sink_models(sinks@)[at as int] == sinks@[at as int]@);
        }
        entries.push(
            (
                sinks[at].label.clone(),
                sinks[at].description.clone(),
                sinks[at].monitor_source_name.clone(),
            ),
        );
        at = at + 1;
    }
    proof {
        assert(candidates(entries@) =~= sink_candidates(models));
    }
    resolve_stored(entries.as_slice(), stored, "sink")
}

/// The server names of a list of sinks.
pub open spec fn sink_names(sinks: Seq<SinkModel>) -> Seq<Seq<char>> {
    sinks.map_values(|s: SinkModel| s.sink_name)
}

/// The monitor sources of a list of sinks.
pub open spec fn monitor_names(sinks: Seq<SinkModel>) -> Seq<Seq<char>> {
    sinks.map_values(|s: SinkModel| s.monitor_source_name)
}

/// Which of the sinks goes by a server name: the first that is so named, else the
/// first whose monitor is named after it. An empty name stands for no sink.
pub open spec fn sink_named(sinks: Seq<SinkModel>, name: Seq<char>) -> Option<int> {
    if name.len() == 0 {
        None
    } else {
        match sink_names(sinks).index_of_first(name) {
            Some(i) => Some(i),
            None => monitor_names(sinks).index_of_first(name + ".monitor"@),
        }
    }
}

/// The label of the sink that goes by a server name.
pub open spec fn label_of_sink(sinks: Seq<SinkModel>, name: Seq<char>) -> Option<Seq<char>> {
    match sink_named(sinks, name) {
        Some(i) => Some(sinks[i].label),
        None => None,
    }
}

/// Label of the sink that the server gives as its default output.
///
/// Matches the sink's own name, falling back to the conventional
/// `<sink>.monitor` for servers that leave the name out. `None` where the default
/// sink is not in the list: it may have no monitor source.
pub fn label_for_sink_name(sinks: &[PulseSink], default_sink_name: &str) -> (found: Option<String>)
    ensures
        optional(found) == label_of_sink(sink_models(sinks@), default_sink_name@),
{
    if default_sink_name.is_empty() {
        return None;
    }
    let ghost models = sink_models(sinks@);
    let mut names: Vec<String> = Vec::new();
    let mut monitors: Vec<String> = Vec::new();
    let mut at: usize = 0;
    while at < sinks.len()
        invariant
            at <= sinks@.len(),
            models == sink_models(sinks@),
            names@.len() == at,
            monitors@.len() == at,
            forall|i: int| 0 <= i < at ==> (#[trigger] names@[i])@ == models[i].sink_name,
            forall|i: int|
                0 <= i < at ==> (#[trigger] monitors@[i])@ == models[i].monitor_source_name,
        decreases sinks@.len() - at,
    {
        proof {
            assert(models[at as int] == sinks@[at as int]@);
        }
        names.push(sinks[at].sink_name.clone());
        monitors.push(sinks[at].monitor_source_name.clone());
        at = at + 1;
    }
    proof {
        assert(texts(names@) =~= sink_names(models));
        assert(texts(monitors@) =~= monitor_names(models));
    }
    let place = match position_of(&names, default_sink_name) {
        Some(i) => Some(i),
        None => position_of(&monitors, joined(default_sink_name, ".monitor").as_str()),
    };
    match place {
        Some(i) => {
            proof {
                assert(models[i as int] == sinks@[i as int]@);
            }
            Some(sinks[i].label.clone())
        },
        None => None,
    }
}

/// Label of the server's default output, among the sinks that it reports.
/// `None` where the server names no default, or one that cannot be captured.
pub fn default_sink_label(server_default: Option<&str>, reports: &Vec<SinkInfo>) -> (found: Option<
    String,
>)
    ensures
        optional(found) == match server_default {
            Some(name) => label_of_sink(offered_sinks(reports@), name@),
            None => None,
        },
{
    match server_default {
        Some(name) => {
            let sinks = list_sinks(reports);
            label_for_sink_name(sinks.as_slice(), name)
        },
        None => None,
    }
}

// ---------------------------------------------------------------------------
// Sources
// ---------------------------------------------------------------------------

/// What the server reports of a source.
#[derive(Debug, Clone, PartialEq, Eq)]
pub struct SourceInfo {
    pub name: Option<String>,
    pub description: Option<String>,
    /// The sink that the source is the monitor of.
    pub monitor_of_sink: Option<u32>,
}

/// An input source (microphone, line-in), as opposed to the monitor of a sink.
#[derive(Debug, Clone, PartialEq, Eq)]
pub struct PulseSource {
    /// The description that the desktop's own audio settings show.
    pub description: String,
    /// The server's name for the source.
    pub source_name: String,
    /// What the picker shows. See [`PulseSink::label`].
    pub label: String,
}

/// What a [`PulseSource`] is, in characters.
#[verifier::ext_equal]
pub struct SourceModel {
    pub description: Seq<char>,
    pub source_name: Seq<char>,
    pub label: Seq<char>,
}

impl View for PulseSource {
    type V = SourceModel;

    open spec fn view(&self) -> SourceModel {
        SourceModel {
            description: self.description@,
            source_name: self.source_name@,
            label: self.label@,
        }
    }
}

impl SourceInfo {
    /// The source is a real input: it has a name, and is not the monitor of a sink.
    pub open spec fn is_input(self) -> bool {
        self.monitor_of_sink is None && text_or_empty(self.name).len() > 0
    }

    /// The description and name that the source is listed under.
    pub open spec fn entry(self) -> (Seq<char>, Seq<char>) {
        (text_or(self.description, text_or_empty(self.name)), text_or_empty(self.name))
    }
}

/// The input sources, in the order in which the server reports them.
pub open spec fn source_entries(reports: Seq<SourceInfo>) -> Seq<(Seq<char>, Seq<char>)> {
    reports.filter(|r: SourceInfo| r.is_input()).map_values(|r: SourceInfo| r.entry())
}

/// The sources that are offered for a server's report.
pub open spec fn offered_sources(reports: Seq<SourceInfo>) -> Seq<SourceModel> {
    let entries = source_entries(reports);
    Seq::new(
        entries.len(),
        |i: int| SourceModel {
            description: entries[i].0,
            source_name: entries[i].1,
            label: label(entries, i),
        },
    )
}

/// The models of a list of sources.
pub open spec fn source_models(sources: Seq<PulseSource>) -> Seq<SourceModel> {
    sources.map_values(|s: PulseSource| s@)
}

/// The input sources that a server reports (monitors of sinks are offered as
/// "System Audio" devices instead), labelled so that they can be told apart.
pub fn list_sources(reports: &Vec<SourceInfo>) -> (sources: Vec<PulseSource>)
    ensures
        source_models(sources@) == offered_sources(reports@),
{
    let ghost keep = |r: SourceInfo| r.is_input();
    let mut raw: Vec<(String, String)> = Vec::new();
    let mut at: usize = 0;
    proof {
        assert(reports@.take(0).filter(keep) =~= Seq::<SourceInfo>::empty()) by {
            reveal(Seq::filter);
        }
    }
    while at < reports.len()
        invariant
            at <= reports@.len(),
            keep == (|r: SourceInfo| r.is_input()),
            raw@.len() == reports@.take(at as int).filter(keep).len(),
            forall|i: int|
                0 <= i < raw@.len() ==> {
                    let e = reports@.take(at as int).filter(keep)[i].entry();
                    (#[trigger] raw@[i]).0@ == e.0 && raw@[i].1@ == e.1
                },
        decreases reports@.len() - at,
    {
        proof {
            reveal(Seq::filter);
            assert(reports@.take(at + 1).drop_last() =~= reports@.take(at as int));
        }
        let name = text_or_nothing(&reports[at].name);
        if reports[at].monitor_of_sink.is_none() && !name.as_str().is_empty() {
            let description = text_or_default(&reports[at].description, name.as_str());
            raw.push((description, name));
        }
        at = at + 1;
    }
    let ghost entries = source_entries(reports@);
    proof {
        assert(reports@.take(at as int) =~= reports@);
        assert(described(raw@) =~= entries);
    }
    let label_list = build_labels(raw.as_slice());
    let mut sources: Vec<PulseSource> = Vec::new();
    let mut next: usize = 0;
    proof {
        assert(label_list@.len() == texts(label_list@).len());
    }
    while next < raw.len()
        invariant
            next <= raw@.len(),
            described(raw@) == entries,
            raw@.len() == entries.len(),
            label_list@.len() == entries.len(),
            texts(label_list@) == labels(entries),
            sources@.len() == next,
            forall|i: int|
                0 <= i < next ==> (#[trigger] sources@[i])@ == (SourceModel {
                    description: entries[i].0,
                    source_name: entries[i].1,
                    label: label(entries, i),
                }),
        decreases raw@.len() - next,
    {
        proof {
            assert(texts(label_list@)[next as int] == label_list@[next as int]@);
            assert(described(raw@)[next as int] == (raw@[next as int].0@, raw@[next as int].1@));
        }
        sources.push(
            PulseSource {
                description: raw[next].0.clone(),
                source_name: raw[next].1.clone(),
                label: label_list[next].clone(),
            },
        );
        next = next + 1;
    }
    proof {
        assert(source_models(sources@) =~= offered_sources(reports@));
    }
    sources
}

/// The candidates that sources make for a stored microphone row.
pub open spec fn source_candidates(sources: Seq<SourceModel>) -> Seq<Candidate> {
    sources.map_values(
        |s: SourceModel| Candidate {
            label: s.label,
            description: s.description,
            name: s.source_name,
        },
    )
}

/// The input source that a stored row stands for, among those that the server
/// reports.
pub open spec fn input_source(reports: Seq<SourceInfo>, stored: Seq<char>) -> Option<Seq<char>> {
    resolved(source_candidates(offered_sources(reports)), stored)
}

/// Resolve a stored microphone row to the server's name for the source, among
/// the sources that the server reports. Accepts the label, or a bare description.
pub fn resolve_source(reports: &Vec<SourceInfo>, stored: &str) -> (result: Result<String, NotFound>)
    ensures
        match input_source(reports@, stored@) {
            Some(name) => result is Ok && result->Ok_0@ == name,
            None => result is Err && result->Err_0.kind@ == "source"@ && result->Err_0.stored@
                == stored@,
        },
{
    let sources = list_sources(reports);
    let ghost models = offered_sources(reports@);
    let mut entries: Vec<(String, String, String)> = Vec::new();
    let mut at: usize = 0;
    proof {
        assert(source_models(sources@).len() == sources@.len());
    }
    while at < sources.len()
        invariant
            at <= sources@.len(),
            source_models(sources@) == models,
            models.len() == sources@.len(),
            entries@.len() == at,
            forall|i: int|
                0 <= i < at ==> {
                    &&& (#[trigger] entries@[i]).0@ == models[i].label
                    &&& entries@[i].1@ == models[i].description
                    &&& entries@[i].2@ == models[i].source_name
                },
        decreases sources@.len() - at,
    {
        proof {
            assert(source_models(sources@)[at as int] == sources@[at as int]@);
        }
        entries.push(
            (
                sources[at].label.clone(),
                sources[at].description.clone(),
                sources[at].source_name.clone(),
            ),
        );
        at = at + 1;
    }
    proof {
        assert(candidates(entries@) =~= source_candidates(models));
    }
    resolve_stored(entries.as_slice(), stored, "source")
}

/// The server names of a list of sources.
pub open spec fn source_names(sources: Seq<SourceModel>) -> Seq<Seq<char>> {
    sources.map_values(|s: SourceModel| s.source_name)
}

/// The label of the source that goes by a server name.
pub open spec fn label_of_source(sources: Seq<SourceModel>, name: Seq<char>) -> Option<Seq<char>> {
    match source_names(sources).index_of_first(name) {
        Some(i) => Some(sources[i].label),
        None => None,
    }
}

/// Label of the server's default input, among the sources that it reports.
/// `None` where the server names no default, or one that is not an input.
pub fn default_source_label(server_default: Option<&str>, reports: &Vec<SourceInfo>) -> (found:
    Option<String>)
    ensures
        optional(found) == match server_default {
            Some(name) => label_of_source(offered_sources(reports@), name@),
            None => None,
        },
{
    let name = match server_default {
        Some(name) => name,
        None => return None,
    };
    let sources = list_sources(reports);
    let ghost models = offered_sources(reports@);
    let mut names: Vec<String> = Vec::new();
    let mut at: usize = 0;
    proof {
        assert(source_models(sources@).len() == sources@.len());
    }
    while at < sources.len()
        invariant
            at <= sources@.len(),
            source_models(sources@) == models,
            models.len() == sources@.len(),
            names@.len() == at,
            forall|i: int| 0 <= i < at ==> (#[trigger] names@[i])@ == models[i].source_name,
        decreases sources@.len() - at,
    {
        proof {
            assert(source_models(sources@)[at as int] == sources@[at as int]@);
        }
        names.push(sources[at].source_name.clone());
        at = at + 1;
    }
    proof {
        assert(texts(names@) =~= source_names(models));
    }
    match position_of(&names, name) {
        Some(i) => {
            proof {
                assert(source_models(sources@)[i as int] == sources@[i as int]@);
            }
            Some(sources[i].label.clone())
        },
        None => None,
    }
}

} // verus!
