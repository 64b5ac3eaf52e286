//! The immutable domain registry: an ordered mapping from domain key to
//! provider record, supporting exact-match lookup and enumeration in
//! registration order.

use vstd::prelude::*;
use vstd::string::StringExecFns;
use crate::model::{Provider, ProviderV};

verus! {

/// One registry entry: a domain key and its provider. A domain key is a
/// literal, case-sensitive string as authored; a leading `*.` marks a
/// wildcard entry, which this registry still treats as a literal key.
#[derive(Debug, Clone)]
pub struct RegistryEntry {
    /// The domain key.
    pub domain: String,
    /// The provider the key maps to.
    pub provider: Provider,
}

/// Mathematical value of a [`RegistryEntry`].
#[verifier::ext_equal]
pub struct RegistryEntryV {
    /// The domain key.
    pub domain: Seq<char>,
    /// The provider.
    pub provider: ProviderV,
}

impl View for RegistryEntry {
    type V = RegistryEntryV;

    open spec fn view(&self) -> RegistryEntryV {
        RegistryEntryV { domain: self.domain@, provider: self.provider@ }
    }
}

impl DeepView for RegistryEntry {
    type V = RegistryEntryV;

    open spec fn deep_view(&self) -> RegistryEntryV {
        self.view()
    }
}

/// The immutable domain-to-provider lookup table. Built once, never
/// mutated; several domain keys may map to the same provider.
#[derive(Debug)]
pub struct Registry {
    entries: Vec<RegistryEntry>,
}

/// Mathematical value of a [`Registry`]: its entries in registration
/// order.
#[verifier::ext_equal]
pub struct RegistryV {
    /// The entries, in registration order.
    pub entries: Seq<RegistryEntryV>,
}

impl View for Registry {
    type V = RegistryV;

    closed spec fn view(&self) -> RegistryV {
        RegistryV { entries: self.entries.deep_view() }
    }
}

/// The provider of the first entry whose key equals `domain`, if any.
pub open spec fn lookup_spec(entries: Seq<RegistryEntryV>, domain: Seq<char>) -> Option<ProviderV>
    decreases entries.len(),
{
    if entries.len() == 0 {
        None
    } else if entries[0].domain == domain {
        Some(entries[0].provider)
    } else {
        lookup_spec(entries.drop_first(), domain)
    }
}

/// Law: lookup succeeds exactly on the domains that are keys of the
/// registry.
pub proof fn lemma_lookup_some_iff_key(entries: Seq<RegistryEntryV>, domain: Seq<char>)
    ensures
        lookup_spec(entries, domain) is Some <==> exists|j: int|
            0 <= j < entries.len() && entries[j].domain == domain,
    decreases entries.len(),
{
    if entries.len() == 0 {
    } else if entries[0].domain == domain {
        assert(entries[0].domain == domain);
    } else {
        lemma_lookup_some_iff_key(entries.drop_first(), domain);
        let rest = entries.drop_first();
        if lookup_spec(entries, domain) is Some {
            let j = choose|j: int| 0 <= j < rest.len() && rest[j].domain == domain;
            assert(entries[j + 1].domain == domain);
        }
        if exists|j: int| 0 <= j < entries.len() && entries[j].domain == domain {
            let j = choose|j: int| 0 <= j < entries.len() && entries[j].domain == domain;
            assert(j != 0);
            assert(rest[j - 1].domain == domain);
        }
    }
}

impl Registry {
    /// Builds the registry from its entry list; the given order is the
    /// registration order and is kept.
    pub fn new(entries: Vec<RegistryEntry>) -> (r: Registry)
        ensures
            r@.entries == entries.deep_view(),
    {
        Registry { entries }
    }

    /// The number of entries.
    pub fn len(&self) -> (n: usize)
        ensures
            n == self@.entries.len(),
    {
        self.entries.len()
    }

    /// The entries, in registration order.
    pub fn entries(&self) -> (r: &Vec<RegistryEntry>)
        ensures
            r.deep_view() == self@.entries,
    {
        &self.entries
    }

    /// Exact-match lookup: the provider of the first entry whose key
    /// equals `domain`, or nothing when `domain` is not a key. No
    /// suffix or wildcard matching is performed.
    pub fn lookup(&self, domain: &str) -> (r: Option<&Provider>)
        ensures
            r is Some <==> exists|j: int|
                0 <= j < self@.entries.len() && self@.entries[j].domain == domain@,
            match r {
                Some(p) => lookup_spec(self@.entries, domain@) == Some(p@),
                None => lookup_spec(self@.entries, domain@) is None,
            },
    {
        proof {
            lemma_lookup_some_iff_key(self@.entries, domain@);
            assert(self@.entries.skip(0) =~= self@.entries);
        }
        let d = String::from_str(domain);
        let n = self.entries.len();
        let mut i: usize = 0;
        while i < n
            invariant
                i <= n,
                n == self.entries.len(),
                d@ == domain@,
                lookup_spec(self@.entries, domain@) == lookup_spec(
                    self@.entries.skip(i as int),
                    domain@,
                ),
                forall|j: int| 0 <= j < i ==> self@.entries[j].domain != domain@,
            decreases n - i,
        {
            proof {
                assert(self@.entries.skip(i as int)[0] == self@.entries[i as int]);
            }
            if self.entries[i].domain == d {
                return Some(&self.entries[i].provider);
            }
            i = i + 1;
            proof {
                assert(self@.entries.skip(i - 1 as int).drop_first() =~= self@.entries.skip(
                    i as int,
                ));
            }
        }
        proof {
            assert(self@.entries.skip(n as int) =~= Seq::<RegistryEntryV>::empty());
        }
        None
    }
}

} // verus!
