//! The export pipeline: iterates the registry in registration order,
//! transforms each entry and serializes the result, one JSON object per
//! line (JSON-lines format).

use vstd::prelude::*;
use vstd::string::StringExecFns;
use crate::json::{append_record_json, json_of_record, lemma_record_json_no_newline, record_json};
use crate::text::{lemma_newline_count_add, newline_count};
use crate::registry::{Registry, RegistryEntryV};
use crate::transform::{transform, transform_spec};

verus! {

/// The serialized line of one registry entry: its autoconfiguration
/// record as one JSON object, without the trailing newline.
pub open spec fn line_of(e: RegistryEntryV) -> Seq<char> {
    json_of_record(transform_spec(e.domain, e.provider))
}

/// The full export output over `entries`: one line per entry, in
/// order, each followed by a newline.
pub open spec fn export_spec(entries: Seq<RegistryEntryV>) -> Seq<char>
    decreases entries.len(),
{
    if entries.len() == 0 {
        Seq::empty()
    } else {
        export_spec(entries.drop_last()) + line_of(entries.last()) + "\n"@
    }
}

/// Serializes every registry entry, in registration order: exactly one
/// JSON line per entry, so the line count equals the alias-inclusive
/// entry count, not the unique-provider count.
pub fn export_lines(registry: &Registry) -> (lines: Vec<String>)
    ensures
        lines.deep_view().len() == registry@.entries.len(),
        forall|i: int|
            0 <= i < lines.deep_view().len() ==> lines.deep_view()[i] == line_of(
                registry@.entries[i],
            ),
{
    let entries = registry.entries();
    let n = entries.len();
    let mut lines: Vec<String> = Vec::new();
    let mut i: usize = 0;
    while i < n
        invariant
            i <= n,
            n == entries@.len(),
            entries.deep_view() == registry@.entries,
            lines.deep_view().len() == i,
            forall|j: int|
                0 <= j < i ==> lines.deep_view()[j] == line_of(registry@.entries[j]),
        decreases n - i,
    {
        proof {
            assert(entries.deep_view()[i as int] == entries@[i as int]@);
        }
        let rec = transform(entries[i].domain.as_str(), &entries[i].provider);
        let line = record_json(&rec);
        proof {
            assert(line@ == line_of(registry@.entries[i as int]));
        }
        let ghost prev_v = lines@;
        let ghost prev_dv = lines.deep_view();
        lines.push(line);
        i = i + 1;
        proof {
            assert forall|j: int| 0 <= j < i implies lines.deep_view()[j] == line_of(
                registry@.entries[j],
            ) by {
                assert(lines.deep_view()[j] == lines@[j].deep_view());
                if j < i - 1 {
                    assert(prev_dv[j] == prev_v[j].deep_view());
                    assert(lines@[j] == prev_v[j]);
                }
            }
        }
    }
    lines
}

/// Runs the whole export: the concatenation, in registration order, of
/// every entry's serialized record followed by a newline.
pub fn export(registry: &Registry) -> (out: String)
    ensures
        out@ == export_spec(registry@.entries),
{
    let entries = registry.entries();
    let n = entries.len();
    let mut out = String::new();
    let mut i: usize = 0;
    while i < n
        invariant
            i <= n,
            n == entries@.len(),
            entries.deep_view() == registry@.entries,
            out@ == export_spec(registry@.entries.take(i as int)),
        decreases n - i,
    {
        proof {
            assert(entries.deep_view()[i as int] == entries@[i as int]@);
        }
        let rec = transform(entries[i].domain.as_str(), &entries[i].provider);
        append_record_json(&mut out, &rec);
        out.append("\n");
        i = i + 1;
        proof {
            let t = registry@.entries.take(i as int);
            assert(t.drop_last() =~= registry@.entries.take(i - 1 as int));
            assert(t.last() == registry@.entries[i - 1]);
            assert(out@ =~= export_spec(t));
        }
    }
    proof {
        assert(registry@.entries.take(n as int) =~= registry@.entries);
    }
    out
}

/// Law: the export output holds exactly one newline, and so exactly
/// one line, per registry entry — the line count equals the
/// alias-inclusive entry count, not the unique-provider count. This
/// holds for arbitrary field contents because the serializer escapes
/// every control character.
pub proof fn lemma_export_line_count(entries: Seq<RegistryEntryV>)
    ensures
        newline_count(export_spec(entries)) == entries.len(),
    decreases entries.len(),
{
    if entries.len() > 0 {
        let pre = entries.drop_last();
        let last = entries.last();
        lemma_export_line_count(pre);
        lemma_record_json_no_newline(transform_spec(last.domain, last.provider));
        reveal_strlit("\n");
        let nl = "\n"@;
        assert(nl.drop_last() =~= Seq::<char>::empty());
        assert(newline_count(Seq::<char>::empty()) == 0);
        assert(newline_count(nl) == 1);
        lemma_newline_count_add(export_spec(pre), line_of(last));
        lemma_newline_count_add(export_spec(pre) + line_of(last), nl);
    }
}

/// Law: the export output is a function of the registry's entries
/// alone, so two runs over the same registry yield byte-identical
/// output.
pub proof fn lemma_export_deterministic(
    entries: Seq<RegistryEntryV>,
    a: Seq<char>,
    b: Seq<char>,
)
    requires
        a == export_spec(entries),
        b == export_spec(entries),
    ensures
        a == b,
{
}

} // verus!
