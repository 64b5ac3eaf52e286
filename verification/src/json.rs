//! Serialization of autoconfiguration records as single-line JSON
//! objects. The wire shape is fixed: enum-valued fields are written as
//! their numeric wire codes, string-valued fields as escaped JSON
//! strings, and no whitespace is emitted. Serialization is total: it
//! cannot fail on any well-typed record.

use vstd::prelude::*;
use vstd::string::StringExecFns;
use crate::text::{append_dec, append_escaped, dec_str, escape_string,
    lemma_dec_str_no_newline, lemma_escape_string_no_newline, lemma_newline_count_add,
    lemma_newline_count_zero, newline_count};
use crate::transform::{Autoconfig, AutoconfigRecord, AutoconfigRecordV, AutoconfigV, Moserver,
    MoserverV};

verus! {

/// The JSON object encoding one server descriptor.
pub open spec fn json_of_moserver(m: MoserverV) -> Seq<char> {
    "{\"type\":"@ + dec_str(m.server_type.code_spec() as nat) + ",\"hostname\":\""@
        + escape_string(m.hostname) + "\",\"port\":\""@ + escape_string(m.port)
        + "\",\"socketType\":"@ + dec_str(m.socketType.code_spec() as nat)
        + ",\"authentication\":\""@ + escape_string(m.authentication) + "\"}"@
}

/// The comma-separated JSON encodings of a descriptor list, without the
/// surrounding brackets.
pub open spec fn json_of_servers(ms: Seq<MoserverV>) -> Seq<char>
    decreases ms.len(),
{
    if ms.len() == 0 {
        Seq::empty()
    } else if ms.len() == 1 {
        json_of_moserver(ms[0])
    } else {
        json_of_servers(ms.drop_last()) + ","@ + json_of_moserver(ms.last())
    }
}

/// The JSON object encoding the two descriptor lists of a provider.
pub open spec fn json_of_autoconfig(a: AutoconfigV) -> Seq<char> {
    "{\"incomingServers\":["@ + json_of_servers(a.incomingServers) + "],\"outgoingServers\":["@
        + json_of_servers(a.outgoingServers) + "]}"@
}

/// The JSON object encoding one autoconfiguration record.
pub open spec fn json_of_record(r: AutoconfigRecordV) -> Seq<char> {
    "{\"domain\":\""@ + escape_string(r.domain) + "\",\"DeltaChat\":"@ + json_of_autoconfig(
        r.DeltaChat,
    ) + "}"@
}

/// The JSON object of one server descriptor contains no newline.
pub proof fn lemma_moserver_json_no_newline(m: MoserverV)
    ensures
        newline_count(json_of_moserver(m)) == 0,
{
    reveal_strlit("{\"type\":");
    reveal_strlit(",\"hostname\":\"");
    reveal_strlit("\",\"port\":\"");
    reveal_strlit("\",\"socketType\":");
    reveal_strlit(",\"authentication\":\"");
    reveal_strlit("\"}");
    let s1 = "{\"type\":"@;
    let s2 = ",\"hostname\":\""@;
    let s3 = "\",\"port\":\""@;
    let s4 = "\",\"socketType\":"@;
    let s5 = ",\"authentication\":\""@;
    let s6 = "\"}"@;
    assert forall|i: int| 0 <= i < s1.len() implies s1[i] != '\n' by {}
    assert forall|i: int| 0 <= i < s2.len() implies s2[i] != '\n' by {}
    assert forall|i: int| 0 <= i < s3.len() implies s3[i] != '\n' by {}
    assert forall|i: int| 0 <= i < s4.len() implies s4[i] != '\n' by {}
    assert forall|i: int| 0 <= i < s5.len() implies s5[i] != '\n' by {}
    assert forall|i: int| 0 <= i < s6.len() implies s6[i] != '\n' by {}
    lemma_newline_count_zero(s1);
    lemma_newline_count_zero(s2);
    lemma_newline_count_zero(s3);
    lemma_newline_count_zero(s4);
    lemma_newline_count_zero(s5);
    lemma_newline_count_zero(s6);
    let d1 = dec_str(m.server_type.code_spec() as nat);
    let d2 = dec_str(m.socketType.code_spec() as nat);
    lemma_dec_str_no_newline(m.server_type.code_spec() as nat);
    lemma_dec_str_no_newline(m.socketType.code_spec() as nat);
    let e1 = escape_string(m.hostname);
    let e2 = escape_string(m.port);
    let e3 = escape_string(m.authentication);
    lemma_escape_string_no_newline(m.hostname);
    lemma_escape_string_no_newline(m.port);
    lemma_escape_string_no_newline(m.authentication);
    lemma_newline_count_add(s1, d1);
    lemma_newline_count_add(s1 + d1, s2);
    lemma_newline_count_add(s1 + d1 + s2, e1);
    lemma_newline_count_add(s1 + d1 + s2 + e1, s3);
    lemma_newline_count_add(s1 + d1 + s2 + e1 + s3, e2);
    lemma_newline_count_add(s1 + d1 + s2 + e1 + s3 + e2, s4);
    lemma_newline_count_add(s1 + d1 + s2 + e1 + s3 + e2 + s4, d2);
    lemma_newline_count_add(s1 + d1 + s2 + e1 + s3 + e2 + s4 + d2, s5);
    lemma_newline_count_add(s1 + d1 + s2 + e1 + s3 + e2 + s4 + d2 + s5, e3);
    lemma_newline_count_add(s1 + d1 + s2 + e1 + s3 + e2 + s4 + d2 + s5 + e3, s6);
}

/// The serialized descriptor list contains no newline.
pub proof fn lemma_servers_json_no_newline(ms: Seq<MoserverV>)
    ensures
        newline_count(json_of_servers(ms)) == 0,
    decreases ms.len(),
{
    if ms.len() == 0 {
    } else if ms.len() == 1 {
        lemma_moserver_json_no_newline(ms[0]);
    } else {
        lemma_servers_json_no_newline(ms.drop_last());
        lemma_moserver_json_no_newline(ms.last());
        reveal_strlit(",");
        let sc = ","@;
        assert forall|i: int| 0 <= i < sc.len() implies sc[i] != '\n' by {}
        lemma_newline_count_zero(sc);
        lemma_newline_count_add(json_of_servers(ms.drop_last()), sc);
        lemma_newline_count_add(
            json_of_servers(ms.drop_last()) + sc,
            json_of_moserver(ms.last()),
        );
    }
}

/// The serialized record of a provider's descriptor lists contains no
/// newline.
pub proof fn lemma_autoconfig_json_no_newline(a: AutoconfigV)
    ensures
        newline_count(json_of_autoconfig(a)) == 0,
{
    reveal_strlit("{\"incomingServers\":[");
    reveal_strlit("],\"outgoingServers\":[");
    reveal_strlit("]}");
    let s1 = "{\"incomingServers\":["@;
    let s2 = "],\"outgoingServers\":["@;
    let s3 = "]}"@;
    assert forall|i: int| 0 <= i < s1.len() implies s1[i] != '\n' by {}
    assert forall|i: int| 0 <= i < s2.len() implies s2[i] != '\n' by {}
    assert forall|i: int| 0 <= i < s3.len() implies s3[i] != '\n' by {}
    lemma_newline_count_zero(s1);
    lemma_newline_count_zero(s2);
    lemma_newline_count_zero(s3);
    let j1 = json_of_servers(a.incomingServers);
    let j2 = json_of_servers(a.outgoingServers);
    lemma_servers_json_no_newline(a.incomingServers);
    lemma_servers_json_no_newline(a.outgoingServers);
    lemma_newline_count_add(s1, j1);
    lemma_newline_count_add(s1 + j1, s2);
    lemma_newline_count_add(s1 + j1 + s2, j2);
    lemma_newline_count_add(s1 + j1 + s2 + j2, s3);
}

/// A serialized record is a single line: the JSON object of a record
/// contains no newline, whatever the record's field contents, because
/// every control character is escaped.
pub proof fn lemma_record_json_no_newline(r: AutoconfigRecordV)
    ensures
        newline_count(json_of_record(r)) == 0,
{
    reveal_strlit("{\"domain\":\"");
    reveal_strlit("\",\"DeltaChat\":");
    reveal_strlit("}");
    let s1 = "{\"domain\":\""@;
    let s2 = "\",\"DeltaChat\":"@;
    let s3 = "}"@;
    assert forall|i: int| 0 <= i < s1.len() implies s1[i] != '\n' by {}
    assert forall|i: int| 0 <= i < s2.len() implies s2[i] != '\n' by {}
    assert forall|i: int| 0 <= i < s3.len() implies s3[i] != '\n' by {}
    lemma_newline_count_zero(s1);
    lemma_newline_count_zero(s2);
    lemma_newline_count_zero(s3);
    let e = escape_string(r.domain);
    let j = json_of_autoconfig(r.DeltaChat);
    lemma_escape_string_no_newline(r.domain);
    lemma_autoconfig_json_no_newline(r.DeltaChat);
    lemma_newline_count_add(s1, e);
    lemma_newline_count_add(s1 + e, s2);
    lemma_newline_count_add(s1 + e + s2, j);
    lemma_newline_count_add(s1 + e + s2 + j, s3);
}

/// Appends the JSON object of one server descriptor to `out`.
fn append_moserver_json(out: &mut String, m: &Moserver)
    ensures
        final(out)@ == old(out)@ + json_of_moserver(m@),
{
    out.append("{\"type\":");
    append_dec(out, m.server_type.code() as u16);
    out.append(",\"hostname\":\"");
    append_escaped(out, m.hostname.as_str());
    out.append("\",\"port\":\"");
    append_escaped(out, m.port.as_str());
    out.append("\",\"socketType\":");
    append_dec(out, m.socketType.code() as u16);
    out.append(",\"authentication\":\"");
    append_escaped(out, m.authentication.as_str());
    out.append("\"}");
    proof {
        assert(out@ =~= old(out)@ + json_of_moserver(m@));
    }
}

/// Appends the comma-separated JSON objects of a descriptor list to
/// `out`.
fn append_servers_json(out: &mut String, ms: &Vec<Moserver>)
    ensures
        final(out)@ == old(out)@ + json_of_servers(ms.deep_view()),
{
    let n = ms.len();
    let mut i: usize = 0;
    while i < n
        invariant
            i <= n,
            n == ms.len(),
            out@ == old(out)@ + json_of_servers(ms.deep_view().take(i as int)),
        decreases n - i,
    {
        if i > 0 {
            out.append(",");
        }
        append_moserver_json(out, &ms[i]);
        i = i + 1;
        proof {
            let t = ms.deep_view().take(i as int);
            assert(t.drop_last() =~= ms.deep_view().take(i - 1 as int));
            assert(t.last() == ms[i - 1 as int].deep_view());
            assert(out@ =~= old(out)@ + json_of_servers(t));
        }
    }
    proof {
        assert(ms.deep_view().take(n as int) =~= ms.deep_view());
    }
}

/// Appends the JSON object of the two descriptor lists to `out`.
fn append_autoconfig_json(out: &mut String, a: &Autoconfig)
    ensures
        final(out)@ == old(out)@ + json_of_autoconfig(a@),
{
    out.append("{\"incomingServers\":[");
    append_servers_json(out, &a.incomingServers);
    out.append("],\"outgoingServers\":[");
    append_servers_json(out, &a.outgoingServers);
    out.append("]}");
    proof {
        assert(out@ =~= old(out)@ + json_of_autoconfig(a@));
    }
}

/// Appends the JSON object of one autoconfiguration record to `out`.
pub fn append_record_json(out: &mut String, r: &AutoconfigRecord)
    ensures
        final(out)@ == old(out)@ + json_of_record(r@),
{
    out.append("{\"domain\":\"");
    append_escaped(out, r.domain.as_str());
    out.append("\",\"DeltaChat\":");
    append_autoconfig_json(out, &r.DeltaChat);
    out.append("}");
    proof {
        assert(out@ =~= old(out)@ + json_of_record(r@));
    }
}

/// Serializes one autoconfiguration record as a single-line JSON
/// object.
pub fn record_json(r: &AutoconfigRecord) -> (s: String)
    ensures
        s@ == json_of_record(r@),
{
    let mut out = String::new();
    append_record_json(&mut out, r);
    proof {
        assert(out@ =~= json_of_record(r@));
    }
    out
}

} // verus!
