//! Which rows are offered for what a machine reports, and what a stored row stands for.

use crate::device::{AudioDevice, DeviceType};
use crate::discovery::name_models;
use crate::linux::{alsa_devices, device_models, is_useful, sink_devices, source_devices};
use crate::pulse::{
    candidates, described, descriptions_of, input_source, is_shared, label, label_of_sink,
    label_of_source, labels, labels_of, monitor_names, monitor_source, offered_sinks,
    offered_sources, resolved, sink_candidates, sink_entries, sink_models, sink_names, sink_pairs,
    source_candidates, source_entries, source_models, source_names, Candidate, PulseSink,
    PulseSource, SinkInfo, SinkModel, SourceInfo, SourceModel,
};
use crate::selection::{filter_keeps, keeps, kept_positions};
use crate::text::lowercase;
use vstd::prelude::*;

verus! {

// ---------------------------------------------------------------------------
// Labels
// ---------------------------------------------------------------------------

/// Another of the descriptions is the same as the one at `i`.
pub open spec fn occurs_elsewhere(descriptions: Seq<Seq<char>>, i: int) -> bool {
    exists|j: int| 0 <= j < descriptions.len() && j != i && #[trigger] descriptions[j]
        == descriptions[i]
}

/// Every entry is labelled by its description, with its name in square brackets behind
/// it exactly where another entry has the same description.
pub proof fn labels_add_the_name_where_it_is_needed(entries: Seq<(String, String)>, i: int)
    requires
        0 <= i < entries.len(),
    ensures
        labels(described(entries)).len() == entries.len(),
        (forall|j: int| 0 <= j < entries.len() && j != i ==> #[trigger] entries[j].0@ != entries[i].0@)
            ==> labels(described(entries))[i] == entries[i].0@,
        (exists|j: int| 0 <= j < entries.len() && j != i && #[trigger] entries[j].0@ == entries[i].0@)
            ==> labels(described(entries))[i] == entries[i].0@ + " ["@ + entries[i].1@ + "]"@,
{
    let model = described(entries);
    assert(model[i] == (entries[i].0@, entries[i].1@));
    if exists|j: int| 0 <= j < entries.len() && j != i && #[trigger] entries[j].0@ == entries[i].0@ {
        let j = choose|j: int|
            0 <= j < entries.len() && j != i && #[trigger] entries[j].0@ == entries[i].0@;
        assert(model[j].0 == model[i].0);
        assert(is_shared(model, i));
    } else if is_shared(model, i) {
        let j = choose|j: int|
            0 <= j < model.len() && j != i && (#[trigger] model[j]).0 == model[i].0;
        assert(entries[j].0@ == entries[i].0@);
    }
}

proof fn lemma_label(entries: Seq<(Seq<char>, Seq<char>)>, descriptions: Seq<Seq<char>>, i: int)
    requires
        0 <= i < entries.len(),
        descriptions.len() == entries.len(),
        forall|j: int| 0 <= j < entries.len() ==> #[trigger] descriptions[j] == entries[j].0,
    ensures
        label(entries, i) == if occurs_elsewhere(descriptions, i) {
            entries[i].0 + " ["@ + entries[i].1 + "]"@
        } else {
            entries[i].0
        },
{
    if is_shared(entries, i) {
        let j = choose|j: int|
            0 <= j < entries.len() && j != i && (#[trigger] entries[j]).0 == entries[i].0;
        assert(descriptions[j] == descriptions[i]);
    }
    if occurs_elsewhere(descriptions, i) {
        let j = choose|j: int|
            0 <= j < descriptions.len() && j != i && #[trigger] descriptions[j] == descriptions[i];
        assert(entries[j].0 == entries[i].0);
    }
}

// ---------------------------------------------------------------------------
// What is listed
// ---------------------------------------------------------------------------

/// A text is there, and is not empty.
pub open spec fn says_something(text: Option<String>) -> bool {
    text is Some && text->0@.len() > 0
}

/// The row of a source is that of a report: it has the name of the report, its
/// description or else its name, and the name behind the description where another row
/// has the same one.
pub open spec fn source_row(rows: Seq<SourceModel>, k: int, report: SourceInfo) -> bool {
    let descriptions = rows.map_values(|r: SourceModel| r.description);
    let row = rows[k];
    &&& row.source_name == report.name->0@
    &&& report.description is Some ==> row.description == report.description->0@
    &&& report.description is None ==> row.description == report.name->0@
    &&& row.label == if occurs_elsewhere(descriptions, k) {
        row.description + " ["@ + row.source_name + "]"@
    } else {
        row.description
    }
}

/// There is a row for every reported source that has a name and is not the monitor of
/// any sink, for nothing else, and in the order of the reports: row `k` is that of the
/// report at `at[k]`.
pub proof fn listed_sources_are_the_real_inputs(reports: Seq<SourceInfo>) -> (at: Seq<int>)
    ensures
        keeps(
            at,
            reports.len(),
            |i: int| reports[i].monitor_of_sink is None && says_something(reports[i].name),
        ),
        offered_sources(reports).len() == at.len(),
        forall|k: int|
            0 <= k < at.len() ==> source_row(offered_sources(reports), k, reports[#[trigger] at[k]]),
{
    let keep = |r: SourceInfo| r.is_input();
    let wanted = |i: int|
        reports[i].monitor_of_sink is None && says_something(reports[i].name);
    let at = kept_positions(reports, keep);
    let rows = offered_sources(reports);
    let entries = source_entries(reports);
    let descriptions = rows.map_values(|r: SourceModel| r.description);
    filter_keeps(reports, keep);
    let by_filter = |i: int| keep(reports[i]);
    assert forall|i: int| 0 <= i < reports.len() implies by_filter(i) == #[trigger] wanted(i) by {}
    assert forall|i: int| 0 <= i < reports.len() && #[trigger] wanted(i) implies at.contains(i) by {
        assert(by_filter(i));
    }
    assert forall|k: int| 0 <= k < at.len() implies 0 <= #[trigger] at[k] < reports.len()
        && wanted(at[k]) by {
        assert(by_filter(at[k]));
    }
    assert(keeps(at, reports.len(), wanted));
    assert forall|k: int| 0 <= k < at.len() implies source_row(rows, k, reports[#[trigger] at[k]]) by {
        assert(wanted(at[k]));
        assert(reports.filter(keep)[k] == reports[at[k]]);
        assert(entries[k] == reports[at[k]].entry());
        lemma_label(entries, descriptions, k);
    }
    at
}

/// The row of a sink is that of a report: it has the names of the report, its
/// description or else a word for an unknown one, and the name of the monitor behind
/// the description where another row has the same one.
pub open spec fn sink_row(rows: Seq<SinkModel>, k: int, report: SinkInfo) -> bool {
    let descriptions = rows.map_values(|r: SinkModel| r.description);
    let row = rows[k];
    &&& row.monitor_source_name == report.monitor_source_name->0@
    &&& report.name is Some ==> row.sink_name == report.name->0@
    &&& report.name is None ==> row.sink_name.len() == 0
    &&& report.description is Some ==> row.description == report.description->0@
    &&& report.description is None ==> row.description == "Unknown output"@
    &&& row.label == if occurs_elsewhere(descriptions, k) {
        row.description + " ["@ + row.monitor_source_name + "]"@
    } else {
        row.description
    }
}

/// There is a row for every reported sink that has a monitor source, for nothing else,
/// and in the order of the reports: row `k` is that of the report at `at[k]`.
pub proof fn listed_sinks_are_those_with_a_monitor(reports: Seq<SinkInfo>) -> (at: Seq<int>)
    ensures
        keeps(at, reports.len(), |i: int| says_something(reports[i].monitor_source_name)),
        offered_sinks(reports).len() == at.len(),
        forall|k: int|
            0 <= k < at.len() ==> sink_row(offered_sinks(reports), k, reports[#[trigger] at[k]]),
{
    let keep = |r: SinkInfo| r.is_capturable();
    let wanted = |i: int| says_something(reports[i].monitor_source_name);
    let at = kept_positions(reports, keep);
    let rows = offered_sinks(reports);
    let entries = sink_entries(reports);
    let pairs = sink_pairs(entries);
    let descriptions = rows.map_values(|r: SinkModel| r.description);
    filter_keeps(reports, keep);
    let by_filter = |i: int| keep(reports[i]);
    assert forall|i: int| 0 <= i < reports.len() implies by_filter(i) == #[trigger] wanted(i) by {}
    assert forall|i: int| 0 <= i < reports.len() && #[trigger] wanted(i) implies at.contains(i) by {
        assert(by_filter(i));
    }
    assert forall|k: int| 0 <= k < at.len() implies 0 <= #[trigger] at[k] < reports.len()
        && wanted(at[k]) by {
        assert(by_filter(at[k]));
    }
    assert(keeps(at, reports.len(), wanted));
    assert forall|k: int| 0 <= k < at.len() implies sink_row(rows, k, reports[#[trigger] at[k]]) by {
        assert(wanted(at[k]));
        assert(reports.filter(keep)[k] == reports[at[k]]);
        assert(entries[k] == reports[at[k]].entry());
        assert(pairs[k] == (entries[k].description, entries[k].monitor_source_name));
        lemma_label(pairs, descriptions, k);
    }
    at
}

/// A row shows its own fields.
pub proof fn rows_show_their_fields(sink: PulseSink, source: PulseSource)
    ensures
        sink@.description == sink.description@,
        sink@.sink_name == sink.sink_name@,
        sink@.monitor_source_name == sink.monitor_source_name@,
        sink@.label == sink.label@,
        source@.description == source.description@,
        source@.source_name == source.source_name@,
        source@.label == source.label@,
{
}

/// A list is told by what is in it, each thing in its place.
pub proof fn lists_show_what_is_in_them(
    sinks: Seq<PulseSink>,
    sources: Seq<PulseSource>,
    devices: Seq<AudioDevice>,
    names: Seq<Option<String>>,
    i: int,
)
    ensures
        sink_models(sinks).len() == sinks.len(),
        0 <= i < sinks.len() ==> sink_models(sinks)[i] == sinks[i]@,
        source_models(sources).len() == sources.len(),
        0 <= i < sources.len() ==> source_models(sources)[i] == sources[i]@,
        device_models(devices).len() == devices.len(),
        0 <= i < devices.len() ==> device_models(devices)[i].name == devices[i].name@
            && device_models(devices)[i].device_type == devices[i].device_type,
        name_models(names).len() == names.len(),
        0 <= i < names.len() ==> (name_models(names)[i] is Some <==> names[i] is Some),
        0 <= i < names.len() && names[i] is Some ==> name_models(names)[i]->0 == names[i]->0@,
{
}

// ---------------------------------------------------------------------------
// What a stored row stands for
// ---------------------------------------------------------------------------

/// A candidate is made of the label, the description and the name that are given for it.
pub proof fn candidates_show_what_is_given(entries: Seq<(String, String, String)>, i: int)
    requires
        0 <= i < entries.len(),
    ensures
        candidates(entries).len() == entries.len(),
        candidates(entries)[i].label == entries[i].0@,
        candidates(entries)[i].description == entries[i].1@,
        candidates(entries)[i].name == entries[i].2@,
{
}

/// Entry `i` of a list is the first that has a label.
pub open spec fn first_labelled(entries: Seq<Candidate>, i: int, stored: Seq<char>) -> bool {
    &&& 0 <= i < entries.len() && entries[i].label == stored
    &&& forall|j: int| 0 <= j < i ==> (#[trigger] entries[j]).label != stored
}

/// Entry `i` of a list is the first that has a description, and none has it as its
/// label.
pub open spec fn first_described(entries: Seq<Candidate>, i: int, stored: Seq<char>) -> bool {
    &&& 0 <= i < entries.len() && entries[i].description == stored
    &&& forall|j: int| 0 <= j < i ==> (#[trigger] entries[j]).description != stored
    &&& forall|j: int| 0 <= j < entries.len() ==> (#[trigger] entries[j]).label != stored
}

/// A stored row stands for the first entry with this label, else for the first with
/// this description, and for nothing where there is neither.
pub proof fn stored_row_is_a_label_or_a_description(entries: Seq<Candidate>, stored: Seq<char>)
    ensures
        match resolved(entries, stored) {
            Some(name) => exists|i: int|
                (#[trigger] first_labelled(entries, i, stored) || first_described(
                    entries,
                    i,
                    stored,
                )) && entries[i].name == name,
            None => forall|i: int|
                0 <= i < entries.len() ==> (#[trigger] entries[i]).label != stored
                    && entries[i].description != stored,
        },
{
    let by_label = labels_of(entries);
    let by_description = descriptions_of(entries);
    by_label.index_of_first_ensures(stored);
    by_description.index_of_first_ensures(stored);
    assert forall|j: int| 0 <= j < entries.len() implies (#[trigger] entries[j]).label
        == by_label[j] && entries[j].description == by_description[j] by {}
    match by_label.index_of_first(stored) {
        Some(i) => {
            assert(entries[i].label == by_label[i]);
            assert(first_labelled(entries, i, stored));
        },
        None => {
            assert forall|j: int| 0 <= j < entries.len() implies (#[trigger] entries[j]).label
                != stored by {
                assert(by_label.contains(by_label[j]));
            }
            match by_description.index_of_first(stored) {
                Some(i) => {
                    assert(entries[i].description == by_description[i]);
                    assert(!first_labelled(entries, i, stored));
                    assert(first_described(entries, i, stored));
                },
                None => {
                    assert forall|j: int| 0 <= j < entries.len() implies (
                    #[trigger] entries[j]).description != stored by {
                        assert(by_description.contains(by_description[j]));
                    }
                },
            }
        },
    }
}

/// A stored "System Audio" row is captured from the monitor source of a sink that is
/// offered: one with this label, or with this description where no sink has the label.
pub proof fn monitor_source_is_that_of_a_row(reports: Seq<SinkInfo>, stored: Seq<char>)
    ensures
        ({
            let rows = offered_sinks(reports);
            let labelled = exists|i: int| 0 <= i < rows.len() && #[trigger] rows[i].label == stored;
            match monitor_source(reports, stored) {
                Some(name) => exists|i: int|
                    0 <= i < rows.len() && (#[trigger] rows[i]).monitor_source_name == name && (if labelled {
                        rows[i].label == stored && forall|j: int|
                            0 <= j < i ==> (#[trigger] rows[j]).label != stored
                    } else {
                        rows[i].description == stored && forall|j: int|
                            0 <= j < i ==> (#[trigger] rows[j]).description != stored
                    }),
                None => forall|i: int|
                    0 <= i < rows.len() ==> (#[trigger] rows[i]).label != stored
                        && rows[i].description != stored,
            }
        }),
{
    let rows = offered_sinks(reports);
    let entries = sink_candidates(rows);
    stored_row_is_a_label_or_a_description(entries, stored);
    assert forall|j: int| 0 <= j < rows.len() implies (#[trigger] rows[j]).label
        == entries[j].label && rows[j].description == entries[j].description
        && rows[j].monitor_source_name == entries[j].name by {}
    if let Some(name) = monitor_source(reports, stored) {
        let i = choose|i: int|
            (#[trigger] first_labelled(entries, i, stored) || first_described(entries, i, stored))
                && entries[i].name == name;
        assert(rows[i].monitor_source_name == name);
        if first_labelled(entries, i, stored) {
            assert(rows[i].label == stored);
            assert forall|j: int| 0 <= j < i implies (#[trigger] rows[j]).label != stored by {
                assert(entries[j].label == rows[j].label);
            }
        } else {
            assert forall|j: int| 0 <= j < rows.len() implies #[trigger] rows[j].label
                != stored by {
                assert(entries[j].label == rows[j].label);
            }
            assert forall|j: int| 0 <= j < i implies (#[trigger] rows[j]).description
                != stored by {
                assert(entries[j].description == rows[j].description);
            }
        }
    } else {
        assert forall|j: int| 0 <= j < rows.len() implies (#[trigger] rows[j]).label != stored
            && rows[j].description != stored by {
            assert(entries[j].label != stored);
        }
    }
}

/// A stored microphone row is captured from a source that is offered: one with this
/// label, or with this description where no source has the label.
pub proof fn input_source_is_that_of_a_row(reports: Seq<SourceInfo>, stored: Seq<char>)
    ensures
        ({
            let rows = offered_sources(reports);
            let labelled = exists|i: int| 0 <= i < rows.len() && #[trigger] rows[i].label == stored;
            match input_source(reports, stored) {
                Some(name) => exists|i: int|
                    0 <= i < rows.len() && (#[trigger] rows[i]).source_name == name && (if labelled {
                        rows[i].label == stored && forall|j: int|
                            0 <= j < i ==> (#[trigger] rows[j]).label != stored
                    } else {
                        rows[i].description == stored && forall|j: int|
                            0 <= j < i ==> (#[trigger] rows[j]).description != stored
                    }),
                None => forall|i: int|
                    0 <= i < rows.len() ==> (#[trigger] rows[i]).label != stored
                        && rows[i].description != stored,
            }
        }),
{
    let rows = offered_sources(reports);
    let entries = source_candidates(rows);
    stored_row_is_a_label_or_a_description(entries, stored);
    assert forall|j: int| 0 <= j < rows.len() implies (#[trigger] rows[j]).label
        == entries[j].label && rows[j].description == entries[j].description
        && rows[j].source_name == entries[j].name by {}
    if let Some(name) = input_source(reports, stored) {
        let i = choose|i: int|
            (#[trigger] first_labelled(entries, i, stored) || first_described(entries, i, stored))
                && entries[i].name == name;
        assert(rows[i].source_name == name);
        if first_labelled(entries, i, stored) {
            assert(rows[i].label == stored);
            assert forall|j: int| 0 <= j < i implies (#[trigger] rows[j]).label != stored by {
                assert(entries[j].label == rows[j].label);
            }
        } else {
            assert forall|j: int| 0 <= j < rows.len() implies #[trigger] rows[j].label
                != stored by {
                assert(entries[j].label == rows[j].label);
            }
            assert forall|j: int| 0 <= j < i implies (#[trigger] rows[j]).description
                != stored by {
                assert(entries[j].description == rows[j].description);
            }
        }
    } else {
        assert forall|j: int| 0 <= j < rows.len() implies (#[trigger] rows[j]).label != stored
            && rows[j].description != stored by {
            assert(entries[j].label != stored);
        }
    }
}

// ---------------------------------------------------------------------------
// Defaults
// ---------------------------------------------------------------------------

/// The label of the server's default output is that of the first sink of that name,
/// else that of the first sink whose monitor is named after it; an empty name is that
/// of no sink.
pub proof fn default_output_is_found_by_its_name(sinks: Seq<SinkModel>, name: Seq<char>)
    ensures
        ({
            let named = exists|i: int| 0 <= i < sinks.len() && #[trigger] sinks[i].sink_name == name;
            match label_of_sink(sinks, name) {
                Some(label) => name.len() > 0 && exists|i: int|
                    0 <= i < sinks.len() && (#[trigger] sinks[i]).label == label && (if named {
                        sinks[i].sink_name == name && forall|j: int|
                            0 <= j < i ==> (#[trigger] sinks[j]).sink_name != name
                    } else {
                        sinks[i].monitor_source_name == name + ".monitor"@ && forall|j: int|
                            0 <= j < i ==> (#[trigger] sinks[j]).monitor_source_name != name
                                + ".monitor"@
                    }),
                None => name.len() == 0 || forall|i: int|
                    0 <= i < sinks.len() ==> (#[trigger] sinks[i]).sink_name != name
                        && sinks[i].monitor_source_name != name + ".monitor"@,
            }
        }),
{
    let names = sink_names(sinks);
    let monitors = monitor_names(sinks);
    let monitor = name + ".monitor"@;
    names.index_of_first_ensures(name);
    monitors.index_of_first_ensures(monitor);
    assert forall|j: int| 0 <= j < sinks.len() implies (#[trigger] sinks[j]).sink_name == names[j]
        && sinks[j].monitor_source_name == monitors[j] by {}
    match names.index_of_first(name) {
        Some(i) => {
            assert(sinks[i].sink_name == name);
            assert forall|j: int| 0 <= j < i implies (#[trigger] sinks[j]).sink_name != name by {
                assert(names[j] == sinks[j].sink_name);
            }
            if name.len() > 0 {
                assert(sinks[i].label == label_of_sink(sinks, name)->0);
            }
        },
        None => {
            assert forall|j: int| 0 <= j < sinks.len() implies #[trigger] sinks[j].sink_name
                != name by {
                assert(names.contains(names[j]));
            }
            match monitors.index_of_first(monitor) {
                Some(i) => {
                    assert(sinks[i].monitor_source_name == monitor);
                    assert forall|j: int| 0 <= j < i implies (
                    #[trigger] sinks[j]).monitor_source_name != monitor by {
                        assert(monitors[j] == sinks[j].monitor_source_name);
                    }
                    if name.len() > 0 {
                        assert(sinks[i].label == label_of_sink(sinks, name)->0);
                    }
                },
                None => {
                    assert forall|j: int| 0 <= j < sinks.len() implies (
                    #[trigger] sinks[j]).sink_name != name && sinks[j].monitor_source_name
                        != monitor by {
                        assert(monitors.contains(monitors[j]));
                        assert(names.contains(names[j]));
                    }
                },
            }
        },
    }
}

/// The label of the server's default input is that of the first source of that name.
pub proof fn default_input_is_found_by_its_name(sources: Seq<SourceModel>, name: Seq<char>)
    ensures
        match label_of_source(sources, name) {
            Some(label) => exists|i: int|
                0 <= i < sources.len() && (#[trigger] sources[i]).label == label
                    && sources[i].source_name == name && forall|j: int|
                    0 <= j < i ==> (#[trigger] sources[j]).source_name != name,
            None => forall|i: int|
                0 <= i < sources.len() ==> (#[trigger] sources[i]).source_name != name,
        },
{
    let names = source_names(sources);
    names.index_of_first_ensures(name);
    assert forall|j: int| 0 <= j < sources.len() implies (#[trigger] sources[j]).source_name
        == names[j] by {}
    match names.index_of_first(name) {
        Some(i) => {
            assert(sources[i].source_name == name);
            assert forall|j: int| 0 <= j < i implies (#[trigger] sources[j]).source_name != name by {
                assert(names[j] == sources[j].source_name);
            }
            assert(sources[i].label == label_of_source(sources, name)->0);
        },
        None => {
            assert forall|j: int| 0 <= j < sources.len() implies (
            #[trigger] sources[j]).source_name != name by {
                assert(names.contains(names[j]));
            }
        },
    }
}

// ---------------------------------------------------------------------------
// The devices of a Linux machine
// ---------------------------------------------------------------------------

/// Every source is offered as an input under its label, and every sink as an output
/// under its label and the words for system audio, each in its place.
pub proof fn devices_carry_the_labels(sources: Seq<PulseSource>, sinks: Seq<PulseSink>)
    ensures
        source_devices(sources).len() == sources.len(),
        forall|i: int|
            0 <= i < sources.len() ==> (#[trigger] source_devices(sources)[i]).name
                == sources[i].label@ && source_devices(sources)[i].device_type
                == DeviceType::Input,
        sink_devices(sinks).len() == sinks.len(),
        forall|i: int|
            0 <= i < sinks.len() ==> (#[trigger] sink_devices(sinks)[i]).name == sinks[i].label@
                + " (System Audio)"@ && sink_devices(sinks)[i].device_type == DeviceType::Output,
{
}

/// A name, in lower case, that is worth showing.
pub open spec fn is_worth_showing(name: Option<String>) -> bool {
    name is Some && (lowercase(name->0@) == "default"@ || lowercase(name->0@) == "pipewire"@
        || lowercase(name->0@) == "pulse"@)
}

/// Without a server, the inputs are the few useful endpoints among the ALSA devices, in
/// their order and under their own names, device `k` being the one at `at[k]`; or the
/// one that is always there.
pub proof fn fallback_inputs_are_the_useful_endpoints(names: Seq<Option<String>>) -> (at: Seq<int>)
    ensures
        keeps(at, names.len(), |i: int| is_worth_showing(names[i])),
        at.len() > 0 ==> alsa_devices(names).len() == at.len() && forall|k: int|
            0 <= k < at.len() ==> (#[trigger] alsa_devices(names)[k]).name == names[at[k]]->0@,
        at.len() == 0 ==> alsa_devices(names).len() == 1 && alsa_devices(names)[0].name
            == "default"@,
        forall|k: int|
            0 <= k < alsa_devices(names).len() ==> (#[trigger] alsa_devices(names)[k]).device_type
                == DeviceType::Input,
{
    let keep = |n: Option<String>| is_useful(n);
    let wanted = |i: int| is_worth_showing(names[i]);
    let at = kept_positions(names, keep);
    filter_keeps(names, keep);
    let by_filter = |i: int| keep(names[i]);
    assert forall|i: int| 0 <= i < names.len() implies by_filter(i) == #[trigger] wanted(i) by {}
    assert forall|i: int| 0 <= i < names.len() && #[trigger] wanted(i) implies at.contains(i) by {
        assert(by_filter(i));
    }
    assert forall|k: int| 0 <= k < at.len() implies 0 <= #[trigger] at[k] < names.len() && wanted(
        at[k],
    ) by {
        assert(by_filter(at[k]));
    }
    assert(keeps(at, names.len(), wanted));
    assert forall|k: int| 0 <= k < at.len() && at.len() > 0 implies (
    #[trigger] alsa_devices(names)[k]).name == names[at[k]]->0@ by {
        assert(names.filter(keep)[k] == names[at[k]]);
    }
    at
}

} // verus!
