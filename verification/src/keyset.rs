//! The provider's published key set and its TTL cache.
//!
//! A key set is one snapshot of the identity provider's public keys.  The
//! cache decides, from a caller-supplied clock, whether the snapshot may
//! still be used or a fresh fetch is needed; the fetch itself is network
//! work that the caller performs.

use vstd::prelude::*;

use crate::text::str_eq;

verus! {

/// One public key as published in the provider's key-set document: a key
/// type tag, optional identifiers, and type-specific material (RSA keys use
/// `n`/`e`, elliptic-curve keys use `crv`/`x`/`y`).  All fields are kept as
/// published; whether the record is usable is decided at validation time.
#[derive(Debug, Clone)]
pub struct KeyRecord {
    pub kty: String,
    pub kid: Option<String>,
    pub key_use: Option<String>,
    pub alg: Option<String>,
    pub n: Option<String>,
    pub e: Option<String>,
    pub crv: Option<String>,
    pub x: Option<String>,
    pub y: Option<String>,
}

/// The record declares the given key id.
pub open spec fn kid_matches(k: KeyRecord, kid: Seq<char>) -> bool {
    k.kid matches Some(s) && s@ == kid
}

/// Both records declare a key id and the two ids are equal.
pub open spec fn kids_equal(p: KeyRecord, q: KeyRecord) -> bool {
    p.kid matches Some(a) && (q.kid matches Some(b) && a@ == b@)
}

/// An ordered snapshot of the provider's published keys, unique by key id
/// wherever an id is present.
#[derive(Debug, Clone)]
pub struct KeySet {
    keys: Vec<KeyRecord>,
}

impl KeySet {
    /// The records in published order.
    pub closed spec fn spec_keys(self) -> Seq<KeyRecord> {
        self.keys@
    }

    /// Invariant: no two records declare the same key id.
    pub open spec fn wf(self) -> bool {
        forall|i: int, j: int|
            0 <= i < j < self.spec_keys().len() ==> !kids_equal(
                self.spec_keys()[i],
                self.spec_keys()[j],
            )
    }

    /// Some record declares the given key id.
    pub open spec fn spec_has_kid(self, kid: Seq<char>) -> bool {
        exists|i: int|
            0 <= i < self.spec_keys().len() && kid_matches(self.spec_keys()[i], kid)
    }

    /// The key-selection policy.  A declared key id selects the record with
    /// exactly that id.  A token without a key id selects the first record
    /// only under the explicitly configured fallback policy; otherwise
    /// nothing is selected.
    pub open spec fn spec_select(
        self,
        kid: Option<Seq<char>>,
        allow_fallback: bool,
    ) -> Option<KeyRecord> {
        match kid {
            Some(k) => if self.spec_has_kid(k) {
                Some(
                    self.spec_keys()[choose|i: int|
                        0 <= i < self.spec_keys().len() && kid_matches(
                            self.spec_keys()[i],
                            k,
                        )],
                )
            } else {
                None
            },
            None => if allow_fallback && self.spec_keys().len() > 0 {
                Some(self.spec_keys()[0])
            } else {
                None
            },
        }
    }

    /// An empty snapshot.
    pub fn new() -> (r: Self)
        ensures
            r.wf(),
            r.spec_keys() == Seq::<KeyRecord>::empty(),
    {
        KeySet { keys: Vec::new() }
    }

    pub fn len(&self) -> (r: usize)
        ensures
            r == self.spec_keys().len(),
    {
        self.keys.len()
    }

    /// Whether some record declares the given key id.
    pub fn contains_kid(&self, kid: &str) -> (r: bool)
        ensures
            r == self.spec_has_kid(kid@),
    {
        let mut i: usize = 0;
        while i < self.keys.len()
            invariant
                i <= self.spec_keys().len(),
                forall|j: int| 0 <= j < i ==> !kid_matches(self.spec_keys()[j], kid@),
            decreases self.spec_keys().len() - i,
        {
            match &self.keys[i].kid {
                Some(s) => {
                    if str_eq(s.as_str(), kid) {
                        proof {
                            assert(0 <= (i as int) && (i as int)
                                < self.spec_keys().len() && kid_matches(
                                self.spec_keys()[i as int],
                                kid@,
                            ));
                        }
                        return true;
                    }
                },
                None => {},
            }
            i = i + 1;
        }
        false
    }

    /// Append a record.  A record whose declared id is already present is
    /// refused, so the snapshot stays unique by id; the result says whether
    /// the record was taken.
    pub fn push_key(&mut self, k: KeyRecord) -> (r: bool)
        requires
            old(self).wf(),
        ensures
            final(self).wf(),
            r == !(k.kid matches Some(s) && old(self).spec_has_kid(s@)),
            r ==> final(self).spec_keys() == old(self).spec_keys().push(k),
            !r ==> final(self).spec_keys() == old(self).spec_keys(),
    {
        let duplicate = match &k.kid {
            Some(s) => self.contains_kid(s.as_str()),
            None => false,
        };
        if duplicate {
            return false;
        }
        proof {
            let s0 = self.spec_keys();
            let s1 = s0.push(k);
            assert forall|i: int, j: int| 0 <= i < j < s1.len() implies !kids_equal(
                s1[i],
                s1[j],
            ) by {
                if j < s0.len() {
                    assert(s1[i] == s0[i]);
                    assert(s1[j] == s0[j]);
                } else {
                    assert(s1[j] == k);
                    assert(s1[i] == s0[i]);
                    if kids_equal(s0[i], k) {
                        assert(0 <= i && i < self.spec_keys().len() && kid_matches(
                            self.spec_keys()[i],
                            k.kid.unwrap()@,
                        ));
                    }
                }
            }
        }
        self.keys.push(k);
        true
    }

    /// Select the verification key for a token that declared `kid` (or
    /// declared none), under the explicit no-id fallback policy.
    pub fn find_key(&self, kid: Option<&str>, allow_fallback: bool) -> (r: Option<
        &KeyRecord,
    >)
        requires
            self.wf(),
        ensures
            r is Some <==> self.spec_select(spec_view_kid(kid), allow_fallback) is Some,
            r matches Some(k) ==> self.spec_select(spec_view_kid(kid), allow_fallback)
                == Some(*k),
    {
        match kid {
            None => {
                if allow_fallback && self.keys.len() > 0 {
                    Some(&self.keys[0])
                } else {
                    None
                }
            },
            Some(target) => {
                let mut i: usize = 0;
                while i < self.keys.len()
                    invariant
                        self.wf(),
                        kid == Some(target),
                        i <= self.spec_keys().len(),
                        forall|j: int|
                            0 <= j < i ==> !kid_matches(self.spec_keys()[j], target@),
                    decreases self.spec_keys().len() - i,
                {
                    let hit = match &self.keys[i].kid {
                        Some(s) => str_eq(s.as_str(), target),
                        None => false,
                    };
                    if hit {
                        proof {
                            assert(0 <= (i as int) && (i as int)
                                < self.spec_keys().len() && kid_matches(
                                self.spec_keys()[i as int],
                                target@,
                            ));
                            assert(self.spec_has_kid(target@));
                            let w = choose|j: int|
                                0 <= j < self.spec_keys().len() && kid_matches(
                                    self.spec_keys()[j],
                                    target@,
                                );
                            assert(0 <= w < self.spec_keys().len() && kid_matches(
                                self.spec_keys()[w],
                                target@,
                            ));
                            if w < i as int {
                                assert(kids_equal(
                                    self.spec_keys()[w],
                                    self.spec_keys()[i as int],
                                ));
                            }
                            if w > i as int {
                                assert(kids_equal(
                                    self.spec_keys()[i as int],
                                    self.spec_keys()[w],
                                ));
                            }
                            assert(w == i as int);
                        }
                        return Some(&self.keys[i]);
                    }
                    i = i + 1;
                }
                None
            },
        }
    }
}

/// View of an optional key id.
pub open spec fn spec_view_kid(kid: Option<&str>) -> Option<Seq<char>> {
    match kid {
        Some(s) => Some(s@),
        None => None,
    }
}

/// One cached snapshot together with the clock reading at which it was
/// stored.
pub struct CachedKeySet {
    pub keys: KeySet,
    pub fetched_at: u64,
}

/// TTL cache for the provider's key set.  A cached snapshot is usable only
/// while its age, measured against the caller-supplied clock, is strictly
/// below the configured TTL; after that, `get` reports a miss and the caller
/// must fetch and `store` a fresh snapshot.
pub struct KeySetCache {
    ttl_seconds: u64,
    entry: Option<CachedKeySet>,
}

impl KeySetCache {
    pub closed spec fn spec_ttl(self) -> u64 {
        self.ttl_seconds
    }

    pub closed spec fn spec_entry(self) -> Option<CachedKeySet> {
        self.entry
    }

    /// The cached snapshot is usable at clock reading `now`.
    pub open spec fn fresh_at(self, now: u64) -> bool {
        self.spec_entry() matches Some(c) && c.fetched_at <= now && now - c.fetched_at
            < self.spec_ttl()
    }

    /// An empty cache with the given TTL.
    pub fn new(ttl_seconds: u64) -> (r: Self)
        ensures
            r.spec_ttl() == ttl_seconds,
            r.spec_entry() is None,
    {
        KeySetCache { ttl_seconds, entry: None }
    }

    /// Return the cached snapshot while it is fresh, and nothing otherwise.
    /// No I/O of any kind happens on a hit.
    pub fn get(&self, now: u64) -> (r: Option<&KeySet>)
        ensures
            r is Some <==> self.fresh_at(now),
            r matches Some(ks) ==> (self.spec_entry() matches Some(c) && *ks == c.keys),
    {
        match &self.entry {
            None => None,
            Some(c) => {
                if c.fetched_at <= now && now - c.fetched_at < self.ttl_seconds {
                    Some(&c.keys)
                } else {
                    None
                }
            },
        }
    }

    /// Replace the cached snapshot with one fetched at clock reading `now`.
    pub fn store(&mut self, keys: KeySet, now: u64)
        ensures
            final(self).spec_ttl() == old(self).spec_ttl(),
            final(self).spec_entry() matches Some(c) && c.keys == keys && c.fetched_at
                == now,
    {
        self.entry = Some(CachedKeySet { keys, fetched_at: now });
    }

    /// Two `get` calls spaced less than TTL apart trigger at most one fetch
    /// between them: once the first miss has stored its fetched snapshot,
    /// every `get` whose clock reading is within TTL of the store is a hit,
    /// so no second fetch can start.
    pub proof fn lemma_no_refetch_within_ttl(self, stored_at: u64, now: u64)
        requires
            self.spec_entry() matches Some(c) && c.fetched_at == stored_at,
            stored_at <= now,
            now - stored_at < self.spec_ttl(),
        ensures
            self.fresh_at(now),
    {
    }
}

} // verus!
