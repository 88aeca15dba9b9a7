//! What holds of picker rows as a whole: labels tell rows apart, cannot be
//! mistaken for the markers of device names, and resolve to the row they came
//! from.

use crate::pulse::{
    bracketed, descriptions_of, input_source, is_shared, label, label_of_sink, label_of_source,
    labels_of, monitor_names, monitor_source, offered_sinks, offered_sources, resolved,
    sink_candidates, sink_entries, sink_named, sink_names, sink_pairs, source_candidates,
    source_entries, source_names, Candidate, SinkInfo, SourceInfo,
};
use vstd::prelude::*;

verus! {

/// A label with a server name in it is never mistaken for a name that carries one
/// of the markers of the device layer: it ends with a bracket.
pub proof fn bracketed_label_ends_with_no_marker(description: Seq<char>, name: Seq<char>)
    ensures
        bracketed(description, name).last() == ']',
        !" (System Audio)"@.is_suffix_of(bracketed(description, name)),
        !" (output)"@.is_suffix_of(bracketed(description, name)),
        !" (input)"@.is_suffix_of(bracketed(description, name)),
{
    reveal_strlit(" [");
    reveal_strlit("]");
    reveal_strlit(" (System Audio)");
    reveal_strlit(" (output)");
    reveal_strlit(" (input)");
    let label = bracketed(description, name);
    let end = label.len() as int;
    assert(label.last() == ']');
    assert forall|marker: Seq<char>|
        marker.len() > 0 && marker.last() == ')' implies !#[trigger] marker.is_suffix_of(label) by {
        if marker.is_suffix_of(label) {
            assert(label.subrange(end - marker.len(), end)[marker.len() - 1] == ')');
        }
    }
    assert(" (System Audio)"@.last() == ')');
    assert(" (output)"@.last() == ')');
    assert(" (input)"@.last() == ')');
}

/// Entry `i`, with its server name in brackets, reads like the label of entry `j`
/// though the two are described differently.
pub open spec fn reads_like(entries: Seq<(Seq<char>, Seq<char>)>, i: int, j: int) -> bool {
    &&& entries[i].0 != entries[j].0
    &&& is_shared(entries, i)
    &&& label(entries, j) == bracketed(entries[i].0, entries[i].1)
}

/// Two rows of a picker look the same exactly where the server reports the same
/// description and name for both, or where the bracketed form of one happens to
/// spell the label of the other.
pub proof fn labels_tell_entries_apart(entries: Seq<(Seq<char>, Seq<char>)>, i: int, j: int)
    requires
        0 <= i < entries.len(),
        0 <= j < entries.len(),
        i != j,
    ensures
        label(entries, i) == label(entries, j) <==> {
            ||| entries[i] == entries[j]
            ||| reads_like(entries, i, j)
            ||| reads_like(entries, j, i)
        },
{
    if entries[i].0 == entries[j].0 {
        assert(is_shared(entries, i)) by {
            assert(entries[j].0 == entries[i].0);
        }
        assert(is_shared(entries, j)) by {
            assert(entries[i].0 == entries[j].0);
        }
        let a = label(entries, i);
        let b = label(entries, j);
        if a == b {
            reveal_strlit(" [");
            reveal_strlit("]");
            let from = entries[i].0.len() + 2;
            assert(entries[i].1 =~= a.subrange(from as int, a.len() - 1));
            assert(entries[j].1 =~= b.subrange(from as int, b.len() - 1));
        }
    }
}

/// A bracketed form can spell another label only if one of the two descriptions
/// begins with the other one and an opening bracket.
pub proof fn look_alikes_need_a_bracket(entries: Seq<(Seq<char>, Seq<char>)>, i: int, j: int)
    requires
        0 <= i < entries.len(),
        0 <= j < entries.len(),
        reads_like(entries, i, j),
    ensures
        (entries[i].0 + " ["@).is_prefix_of(entries[j].0) || (entries[j].0 + " ["@).is_prefix_of(
            entries[i].0,
        ),
{
    reveal_strlit(" [");
    reveal_strlit("]");
    let a = entries[i].0;
    let b = entries[j].0;
    let text = bracketed(a, entries[i].1);
    assert((a + " ["@).is_prefix_of(text));
    assert(text.take(a.len() as int) =~= a);
    if is_shared(entries, j) {
        assert(text == bracketed(b, entries[j].1));
        assert(text.take(b.len() as int) =~= b);
        assert(text[a.len() as int] == ' ' && text[a.len() as int + 1] == '[');
        assert(text[b.len() as int] == ' ' && text[b.len() as int + 1] == '[');
        if a.len() == b.len() {
            assert(a == b);
        } else if a.len() < b.len() {
            assert((a + " ["@) =~= b.subrange(0, a.len() as int + 2));
        } else {
            assert((b + " ["@) =~= a.subrange(0, b.len() as int + 2));
        }
    }
}

/// A stored label resolves to the entry that carries it, unless an earlier entry
/// carries it for another name.
pub proof fn stored_label_resolves(entries: Seq<Candidate>, i: int)
    requires
        0 <= i < entries.len(),
        forall|j: int|
            0 <= j < i ==> (#[trigger] entries[j]).label != entries[i].label || entries[j].name
                == entries[i].name,
    ensures
        resolved(entries, entries[i].label) == Some(entries[i].name),
{
    let keys = labels_of(entries);
    let key = entries[i].label;
    keys.index_of_first_ensures(key);
    assert(keys[i] == key);
    let first = keys.index_of_first(key)->0;
    assert(entries[first].label == keys[first]);
}

/// A bare description, as older versions stored it, still resolves: where it is
/// nobody's label, to the first entry that it describes.
pub proof fn stored_description_resolves(entries: Seq<Candidate>, i: int)
    requires
        0 <= i < entries.len(),
        forall|j: int| 0 <= j < i ==> (#[trigger] entries[j]).description != entries[i].description,
        forall|j: int|
            0 <= j < entries.len() ==> (#[trigger] entries[j]).label != entries[i].description,
    ensures
        resolved(entries, entries[i].description) == Some(entries[i].name),
{
    let key = entries[i].description;
    let by_label = labels_of(entries);
    by_label.index_of_first_ensures(key);
    if by_label.contains(key) {
        let at = by_label.index_of_first(key)->0;
        assert(entries[at].label != key);
    }
    let keys = descriptions_of(entries);
    keys.index_of_first_ensures(key);
    assert(keys[i] == key);
    let first = keys.index_of_first(key)->0;
    if first < i {
        assert(entries[first].description != key);
    }
}

/// No earlier row of a list shows the label of row `i` for another name.
pub open spec fn stands_apart(entries: Seq<(Seq<char>, Seq<char>)>, i: int) -> bool {
    forall|j: int|
        0 <= j < i && #[trigger] label(entries, j) == label(entries, i) ==> entries[j].1
            == entries[i].1
}

/// Every row stands apart where no description goes on from another one with an
/// opening bracket.
pub proof fn rows_stand_apart(entries: Seq<(Seq<char>, Seq<char>)>, i: int)
    requires
        0 <= i < entries.len(),
        forall|j: int, k: int|
            0 <= j < entries.len() && 0 <= k < entries.len() ==> !(#[trigger] entries[j].0
                + " ["@).is_prefix_of(#[trigger] entries[k].0),
    ensures
        stands_apart(entries, i),
{
    assert forall|j: int| 0 <= j < i && #[trigger] label(entries, j) == label(entries, i) implies entries[j].1
        == entries[i].1 by {
        labels_tell_entries_apart(entries, i, j);
        if reads_like(entries, i, j) {
            look_alikes_need_a_bracket(entries, i, j);
        }
        if reads_like(entries, j, i) {
            look_alikes_need_a_bracket(entries, j, i);
        }
    }
}

/// What the picker offers for a sink and stores resolves to the monitor source of
/// that same sink, on a server that still reports the same sinks.
pub proof fn offered_sink_resolves(reports: Seq<SinkInfo>, i: int)
    requires
        0 <= i < offered_sinks(reports).len(),
        stands_apart(sink_pairs(sink_entries(reports)), i),
    ensures
        monitor_source(reports, offered_sinks(reports)[i].label) == Some(
            offered_sinks(reports)[i].monitor_source_name,
        ),
{
    let pairs = sink_pairs(sink_entries(reports));
    let entries = sink_candidates(offered_sinks(reports));
    assert forall|j: int| 0 <= j < i implies (#[trigger] entries[j]).label != entries[i].label
        || entries[j].name == entries[i].name by {
        assert(label(pairs, j) == entries[j].label);
        assert(pairs[j].1 == entries[j].name);
    }
    stored_label_resolves(entries, i);
}

/// What the picker offers for a source and stores resolves to that same source,
/// on a server that still reports the same sources.
pub proof fn offered_source_resolves(reports: Seq<SourceInfo>, i: int)
    requires
        0 <= i < offered_sources(reports).len(),
        stands_apart(source_entries(reports), i),
    ensures
        input_source(reports, offered_sources(reports)[i].label) == Some(
            offered_sources(reports)[i].source_name,
        ),
{
    let pairs = source_entries(reports);
    let entries = source_candidates(offered_sources(reports));
    assert forall|j: int| 0 <= j < i implies (#[trigger] entries[j]).label != entries[i].label
        || entries[j].name == entries[i].name by {
        assert(label(pairs, j) == entries[j].label);
        assert(pairs[j].1 == entries[j].name);
    }
    stored_label_resolves(entries, i);
}

/// The label given for the server's default output resolves to the monitor source
/// of the sink that the server calls its default.
pub proof fn default_output_resolves(reports: Seq<SinkInfo>, name: Seq<char>)
    requires
        sink_named(offered_sinks(reports), name) is Some,
        stands_apart(
            sink_pairs(sink_entries(reports)),
            sink_named(offered_sinks(reports), name)->0,
        ),
    ensures
        ({
            let sinks = offered_sinks(reports);
            let at = sink_named(sinks, name)->0;
            &&& 0 <= at < sinks.len()
            &&& sinks[at].sink_name == name || sinks[at].monitor_source_name == name + ".monitor"@
            &&& monitor_source(reports, label_of_sink(sinks, name)->0) == Some(
                sinks[at].monitor_source_name,
            )
        }),
{
    let sinks = offered_sinks(reports);
    sink_names(sinks).index_of_first_ensures(name);
    monitor_names(sinks).index_of_first_ensures(name + ".monitor"@);
    offered_sink_resolves(reports, sink_named(sinks, name)->0);
}

/// The label given for the server's default input resolves to that input.
pub proof fn default_input_resolves(reports: Seq<SourceInfo>, name: Seq<char>)
    requires
        label_of_source(offered_sources(reports), name) is Some,
        stands_apart(
            source_entries(reports),
            source_names(offered_sources(reports)).index_of_first(name)->0,
        ),
    ensures
        input_source(reports, label_of_source(offered_sources(reports), name)->0) == Some(name),
{
    let names = source_names(offered_sources(reports));
    names.index_of_first_ensures(name);
    let at = names.index_of_first(name)->0;
    assert(names[at] == offered_sources(reports)[at].source_name);
    offered_source_resolves(reports, at);
}

/// Every sink that is offered can be captured, and every sink that can be captured
/// is offered.
pub proof fn offered_sinks_are_the_capturable_ones(reports: Seq<SinkInfo>)
    ensures
        forall|i: int|
            0 <= i < offered_sinks(reports).len() ==> (
            #[trigger] offered_sinks(reports)[i]).monitor_source_name.len() > 0,
        forall|k: int|
            0 <= k < reports.len() && (#[trigger] reports[k]).is_capturable() ==> exists|i: int|
                0 <= i < offered_sinks(reports).len() && (
                #[trigger] offered_sinks(reports)[i]).monitor_source_name
                    == reports[k].entry().monitor_source_name,
{
    let keep = |r: SinkInfo| r.is_capturable();
    let kept = reports.filter(keep);
    let offered = offered_sinks(reports);
    assert forall|i: int| 0 <= i < offered.len() implies (
    #[trigger] offered[i]).monitor_source_name.len() > 0 by {
        reports.lemma_filter_pred(keep, i);
        assert(kept[i].is_capturable());
    }
    assert forall|k: int|
        0 <= k < reports.len() && (#[trigger] reports[k]).is_capturable() implies exists|i: int|
        0 <= i < offered.len() && (#[trigger] offered[i]).monitor_source_name
            == reports[k].entry().monitor_source_name by {
        reports.lemma_filter_contains(keep, k);
        let i = choose|i: int| 0 <= i < kept.len() && kept[i] == reports[k];
        assert(offered[i].monitor_source_name == kept[i].entry().monitor_source_name);
    }
}

/// Every source that is offered is an input, and every input is offered.
pub proof fn offered_sources_are_the_inputs(reports: Seq<SourceInfo>)
    ensures
        forall|i: int|
            0 <= i < offered_sources(reports).len() ==> (
            #[trigger] offered_sources(reports)[i]).source_name.len() > 0,
        forall|k: int|
            0 <= k < reports.len() && (#[trigger] reports[k]).is_input() ==> exists|i: int|
                0 <= i < offered_sources(reports).len() && (
                #[trigger] offered_sources(reports)[i]).source_name
                    == reports[k].entry().1,
{
    let keep = |r: SourceInfo| r.is_input();
    let kept = reports.filter(keep);
    let offered = offered_sources(reports);
    assert forall|i: int| 0 <= i < offered.len() implies (#[trigger] offered[i]).source_name.len()
        > 0 by {
        reports.lemma_filter_pred(keep, i);
        assert(kept[i].is_input());
    }
    assert forall|k: int|
        0 <= k < reports.len() && (#[trigger] reports[k]).is_input() implies exists|i: int|
        0 <= i < offered.len() && (#[trigger] offered[i]).source_name == reports[k].entry().1 by {
        reports.lemma_filter_contains(keep, k);
        let i = choose|i: int| 0 <= i < kept.len() && kept[i] == reports[k];
        assert(offered[i].source_name == kept[i].entry().1);
    }
}

} // verus!
