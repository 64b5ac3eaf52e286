//! The autoconfig transformer: turns a provider's server list into the
//! client-facing incoming/outgoing server descriptors, partitioned by
//! protocol and in source order.

use vstd::prelude::*;
use crate::model::{Protocol, Provider, ProviderV, Server, ServerV};
use crate::text::{append_dec, dec_str};

verus! {

/// A client-facing server descriptor.
#[derive(Debug, Clone)]
#[allow(non_snake_case)]
pub struct Moserver {
    /// Server protocol, e.g. SMTP or IMAP.
    pub server_type: Protocol,
    /// Server host.
    pub hostname: String,
    /// Server port, rendered as its decimal string form.
    pub port: String,
    /// Port security, e.g. TLS or STARTTLS.
    pub socketType: crate::model::Socket,
    /// Login authentication method; currently always empty.
    pub authentication: String,
}

/// Mathematical value of a [`Moserver`].
#[verifier::ext_equal]
#[allow(non_snake_case)]
pub struct MoserverV {
    /// Server protocol.
    pub server_type: Protocol,
    /// Server host.
    pub hostname: Seq<char>,
    /// Server port as a decimal string.
    pub port: Seq<char>,
    /// Port security.
    pub socketType: crate::model::Socket,
    /// Login authentication method.
    pub authentication: Seq<char>,
}

impl View for Moserver {
    type V = MoserverV;

    open spec fn view(&self) -> MoserverV {
        MoserverV {
            server_type: self.server_type,
            hostname: self.hostname@,
            port: self.port@,
            socketType: self.socketType,
            authentication: self.authentication@,
        }
    }
}

impl DeepView for Moserver {
    type V = MoserverV;

    open spec fn deep_view(&self) -> MoserverV {
        self.view()
    }
}

/// The two ordered descriptor lists of one provider.
#[derive(Debug, Clone)]
#[allow(non_snake_case)]
pub struct Autoconfig {
    /// Descriptors of the provider's incoming (IMAP) servers.
    pub incomingServers: Vec<Moserver>,
    /// Descriptors of the provider's outgoing (SMTP) servers.
    pub outgoingServers: Vec<Moserver>,
}

/// Mathematical value of an [`Autoconfig`].
#[verifier::ext_equal]
#[allow(non_snake_case)]
pub struct AutoconfigV {
    /// Incoming server descriptors.
    pub incomingServers: Seq<MoserverV>,
    /// Outgoing server descriptors.
    pub outgoingServers: Seq<MoserverV>,
}

impl View for Autoconfig {
    type V = AutoconfigV;

    open spec fn view(&self) -> AutoconfigV {
        AutoconfigV {
            incomingServers: self.incomingServers.deep_view(),
            outgoingServers: self.outgoingServers.deep_view(),
        }
    }
}

impl DeepView for Autoconfig {
    type V = AutoconfigV;

    open spec fn deep_view(&self) -> AutoconfigV {
        self.view()
    }
}

/// The per-domain autoconfiguration record emitted by the export
/// pipeline: the domain and its two descriptor lists.
#[derive(Debug, Clone)]
#[allow(non_snake_case)]
pub struct AutoconfigRecord {
    /// The domain this record was derived for.
    pub domain: String,
    /// The incoming/outgoing server descriptors.
    pub DeltaChat: Autoconfig,
}

/// Mathematical value of an [`AutoconfigRecord`].
#[verifier::ext_equal]
#[allow(non_snake_case)]
pub struct AutoconfigRecordV {
    /// The domain.
    pub domain: Seq<char>,
    /// The descriptor lists.
    pub DeltaChat: AutoconfigV,
}

impl View for AutoconfigRecord {
    type V = AutoconfigRecordV;

    open spec fn view(&self) -> AutoconfigRecordV {
        AutoconfigRecordV { domain: self.domain@, DeltaChat: self.DeltaChat@ }
    }
}

impl DeepView for AutoconfigRecord {
    type V = AutoconfigRecordV;

    open spec fn deep_view(&self) -> AutoconfigRecordV {
        self.view()
    }
}

/// Whether a server entry is an incoming (IMAP) one; every other entry
/// is an outgoing one.
pub open spec fn is_incoming(s: ServerV) -> bool {
    s.protocol == Protocol::Imap
}

/// The descriptor of one server entry: protocol and socket unchanged,
/// hostname unchanged, port rendered as its decimal string, and the
/// authentication placeholder empty.
pub open spec fn modify_spec(s: ServerV) -> MoserverV {
    MoserverV {
        server_type: s.protocol,
        hostname: s.hostname,
        port: dec_str(s.port as nat),
        socketType: s.socket,
        authentication: Seq::empty(),
    }
}

/// The descriptors of the IMAP entries of `servers`, in source order.
pub open spec fn incoming_of(servers: Seq<ServerV>) -> Seq<MoserverV>
    decreases servers.len(),
{
    if servers.len() == 0 {
        Seq::empty()
    } else if is_incoming(servers.last()) {
        incoming_of(servers.drop_last()) + seq![modify_spec(servers.last())]
    } else {
        incoming_of(servers.drop_last())
    }
}

/// The descriptors of the non-IMAP (SMTP) entries of `servers`, in
/// source order.
pub open spec fn outgoing_of(servers: Seq<ServerV>) -> Seq<MoserverV>
    decreases servers.len(),
{
    if servers.len() == 0 {
        Seq::empty()
    } else if !is_incoming(servers.last()) {
        outgoing_of(servers.drop_last()) + seq![modify_spec(servers.last())]
    } else {
        outgoing_of(servers.drop_last())
    }
}

/// The autoconfiguration record of one (domain, provider) pair.
pub open spec fn transform_spec(domain: Seq<char>, p: ProviderV) -> AutoconfigRecordV {
    AutoconfigRecordV {
        domain: domain,
        DeltaChat: AutoconfigV {
            incomingServers: incoming_of(p.server),
            outgoingServers: outgoing_of(p.server),
        },
    }
}

/// The incoming-side predicate, as a function value.
pub open spec fn incoming_pred() -> spec_fn(ServerV) -> bool {
    |s: ServerV| is_incoming(s)
}

/// The outgoing-side predicate, as a function value.
pub open spec fn outgoing_pred() -> spec_fn(ServerV) -> bool {
    |s: ServerV| !is_incoming(s)
}

/// The per-entry descriptor construction, as a function value.
pub open spec fn modify_fn() -> spec_fn(ServerV) -> MoserverV {
    |s: ServerV| modify_spec(s)
}

/// Law: the transformer partitions the server list by protocol. The
/// incoming descriptors are exactly the descriptors of the IMAP entries
/// in source order, the outgoing descriptors exactly those of the
/// remaining entries in source order, and the two counts sum to the
/// length of the server list.
pub proof fn lemma_transform_partitions(servers: Seq<ServerV>)
    ensures
        incoming_of(servers) == servers.filter(incoming_pred()).map_values(modify_fn()),
        outgoing_of(servers) == servers.filter(outgoing_pred()).map_values(modify_fn()),
        incoming_of(servers).len() + outgoing_of(servers).len() == servers.len(),
    decreases servers.len(),
{
    reveal(Seq::filter);
    if servers.len() == 0 {
        assert(incoming_of(servers) =~= servers.filter(incoming_pred()).map_values(modify_fn()));
        assert(outgoing_of(servers) =~= servers.filter(outgoing_pred()).map_values(modify_fn()));
    } else {
        let pre = servers.drop_last();
        let last = servers.last();
        lemma_transform_partitions(pre);
        if is_incoming(last) {
            assert(servers.filter(incoming_pred()) =~= pre.filter(incoming_pred()).push(last));
            assert(servers.filter(outgoing_pred()) =~= pre.filter(outgoing_pred()));
        } else {
            assert(servers.filter(incoming_pred()) =~= pre.filter(incoming_pred()));
            assert(servers.filter(outgoing_pred()) =~= pre.filter(outgoing_pred()).push(last));
        }
        assert(incoming_of(servers) =~= servers.filter(incoming_pred()).map_values(modify_fn()));
        assert(outgoing_of(servers) =~= servers.filter(outgoing_pred()).map_values(modify_fn()));
    }
}

/// Law: two domain keys aliased to the same provider yield identical
/// autoconfiguration records except for the domain field.
pub proof fn lemma_aliases_agree(d1: Seq<char>, d2: Seq<char>, p: ProviderV)
    ensures
        transform_spec(d1, p).domain == d1,
        transform_spec(d2, p).domain == d2,
        transform_spec(d1, p).DeltaChat == transform_spec(d2, p).DeltaChat,
{
}

/// Law: a provider with an empty server list yields a record whose two
/// descriptor lists are both empty; that is a valid output, not an
/// error.
pub proof fn lemma_transform_empty(domain: Seq<char>, p: ProviderV)
    requires
        p.server.len() == 0,
    ensures
        transform_spec(domain, p).DeltaChat.incomingServers == Seq::<MoserverV>::empty(),
        transform_spec(domain, p).DeltaChat.outgoingServers == Seq::<MoserverV>::empty(),
{
}

/// Builds the descriptor of one server entry.
pub fn modify(x: &Server) -> (r: Moserver)
    ensures
        r@ == modify_spec(x@),
{
    let mut port = String::new();
    append_dec(&mut port, x.port);
    let re = Moserver {
        server_type: x.protocol,
        hostname: x.hostname.clone(),
        port,
        socketType: x.socket,
        authentication: String::new(),
    };
    proof {
        assert(re@ =~= modify_spec(x@));
    }
    re
}

/// Builds the autoconfiguration record of one (domain, provider) pair:
/// the provider's server entries are partitioned into incoming (IMAP)
/// and outgoing (all other) descriptors, keeping their source order
/// within each partition.
pub fn transform(domain: &str, provider: &Provider) -> (r: AutoconfigRecord)
    ensures
        r@ == transform_spec(domain@, provider@),
{
    let mut incoming: Vec<Moserver> = Vec::new();
    let mut outgoing: Vec<Moserver> = Vec::new();
    let n = provider.server.len();
    let mut i: usize = 0;
    while i < n
        invariant
            i <= n,
            n == provider.server.len(),
            incoming.deep_view() == incoming_of(provider@.server.take(i as int)),
            outgoing.deep_view() == outgoing_of(provider@.server.take(i as int)),
        decreases n - i,
    {
        let cur = modify(&provider.server[i]);
        let ghost prev = provider@.server.take(i as int);
        if cur.server_type == Protocol::Imap {
            incoming.push(cur);
        } else {
            outgoing.push(cur);
        }
        i = i + 1;
        proof {
            let t = provider@.server.take(i as int);
            assert(t.drop_last() =~= prev);
            assert(t.last() == provider@.server[i - 1]);
            assert(incoming.deep_view() =~= incoming_of(t));
            assert(outgoing.deep_view() =~= outgoing_of(t));
        }
    }
    proof {
        assert(provider@.server.take(n as int) =~= provider@.server);
    }
    let re = AutoconfigRecord {
        domain: String::from_str(domain),
        DeltaChat: Autoconfig { incomingServers: incoming, outgoingServers: outgoing },
    };
    proof {
        assert(re@ =~= transform_spec(domain@, provider@));
    }
    re
}

} // verus!
