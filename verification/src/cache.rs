//! A process-wide memoization store mapping an email address to its derived
//! avatar lookup URL.
//!
//! The store keeps one immutable snapshot of its whole mapping behind an
//! atomically replaceable slot: a lookup loads the current snapshot with a
//! single atomic load and no further synchronization, and an insert builds a
//! new snapshot holding every prior entry plus the new pair and atomically
//! installs it, so a reader still holding the old snapshot keeps observing it
//! unchanged. Keys and values are leaked on first insertion and live for the
//! rest of the process, which keeps every handed-out reference stable without
//! per-read reference counting.
use vstd::prelude::*;

verus! {

use vstd::string::StringExecFns;
use crate::FilterError;
use crate::hexfmt::hex_of;

/// The digest that the MD5 hash assigns to a string's bytes.
pub uninterp spec fn md5_of(data: Seq<char>) -> Seq<u8>;

/// Relies on `md5::compute`: the digest is a pure function of the input bytes
/// alone and is sixteen bytes long.
#[verifier::external_body]
fn md5_digest(data: &str) -> (r: Vec<u8>)
    ensures
        r@ == md5_of(data@),
        r@.len() == 16,
{
    md5::compute(data.as_bytes()).0.to_vec()
}

/// The avatar lookup URL derived from an email address: a fixed prefix
/// followed by the lowercase hexadecimal MD5 digest of the address.
pub open spec fn gravatar_url_of(email: Seq<char>) -> Seq<char> {
    "https://www.gravatar.com/avatar/"@ + hex_of(md5_of(email))
}

/// The atomically replaceable snapshot slot. Its contents are only reachable
/// through the trusted operations below, whose contracts speak of
/// [`slot_entries`].
#[verifier::external_body]
pub struct CacheSlot {
    inner: arc_swap::ArcSwap<hashbrown::HashMap<&'static str, &'static str>>,
}

/// The key-to-value mapping the slot's current snapshot holds.
pub uninterp spec fn slot_entries(s: CacheSlot) -> Map<Seq<char>, Seq<char>>;

/// The mapping with no entries at all.
pub open spec fn no_entries() -> Map<Seq<char>, Seq<char>> {
    Map::empty()
}

impl CacheSlot {
    /// The key-to-value mapping the current snapshot holds.
    pub open spec fn entries(self) -> Map<Seq<char>, Seq<char>> {
        slot_entries(self)
    }
}

/// Relies on `arc_swap::ArcSwap::new` and `hashbrown::HashMap::new`: a fresh
/// slot holds an empty snapshot.
#[verifier::external_body]
fn slot_new() -> (s: CacheSlot)
    ensures
        slot_entries(s) == no_entries(),
{
    CacheSlot { inner: arc_swap::ArcSwap::new(std::sync::Arc::new(hashbrown::HashMap::new())) }
}

/// Relies on `arc_swap::ArcSwap::load` and `hashbrown::HashMap::get`: one
/// atomic load of the current snapshot, then the entry stored under `key`,
/// if any.
#[verifier::external_body]
fn slot_get(s: &CacheSlot, key: &str) -> (r: Option<&'static str>)
    ensures
        r matches Some(v) ==> slot_entries(*s).contains_key(key@) && v@ == slot_entries(*s)[key@],
        r is None ==> !slot_entries(*s).contains_key(key@),
{
    s.inner.load().get(key).copied()
}

/// Relies on `hashbrown::HashMap::clone`/`insert` and
/// `arc_swap::ArcSwap::load`/`store`: reads the current snapshot, builds a
/// copy that also holds the new pair, and atomically installs the copy; the
/// old snapshot itself is never touched. Both strings are leaked, so the
/// returned reference lives for the rest of the process.
#[verifier::external_body]
fn slot_insert(s: &mut CacheSlot, key: &str, value: String) -> (r: &'static str)
    ensures
        slot_entries(*final(s)) == slot_entries(*old(s)).insert(key@, value@),
        r@ == value@,
{
    let key: &'static str = Box::leak(Box::from(key));
    let value: &'static str = String::leak(value);
    let mut snapshot = (**s.inner.load()).clone();
    snapshot.insert(key, value);
    s.inner.store(std::sync::Arc::new(snapshot));
    value
}

/// A memoization cache from email addresses to their avatar lookup URLs.
///
/// Entries are never evicted, never mutated and never freed: a hit returns
/// the stored reference after one atomic load, and a miss derives the URL,
/// stores it for every later lookup, and returns it.
pub struct LookupCache {
    slot: CacheSlot,
    misses: u64,
}

impl LookupCache {
    /// Every stored value is the URL derived from its key.
    #[verifier::type_invariant]
    spec fn wf(self) -> bool {
        forall|k: Seq<char>| #[trigger]
            self.entries().contains_key(k) ==> self.entries()[k] == gravatar_url_of(k)
    }

    /// The key-to-value mapping currently stored.
    pub closed spec fn entries(self) -> Map<Seq<char>, Seq<char>> {
        self.slot.entries()
    }

    /// How many lookups have missed and derived their value; saturates at the
    /// largest counter value.
    pub closed spec fn spec_misses(self) -> u64 {
        self.misses
    }

    /// An empty cache.
    pub fn new() -> (c: LookupCache)
        ensures
            c.entries() == Map::<Seq<char>, Seq<char>>::empty(),
            c.spec_misses() == 0,
    {
        LookupCache { slot: slot_new(), misses: 0 }
    }

    /// The number of lookups so far that missed and derived their value.
    pub fn misses(&self) -> (n: u64)
        ensures
            n == self.spec_misses(),
    {
        self.misses
    }

    /// The avatar URL for `email`: the stored value on a hit, otherwise the
    /// freshly derived one, which is stored for every later lookup. Either
    /// way the result is the URL that [`gravatar_url_of`] assigns to the
    /// address.
    pub fn resolve(&mut self, email: &str) -> (r: &'static str)
        ensures
            r@ == gravatar_url_of(email@),
            final(self).entries() == old(self).entries().insert(email@, gravatar_url_of(email@)),
            old(self).entries().contains_key(email@) ==> final(self).spec_misses() == old(
                self,
            ).spec_misses(),
            !old(self).entries().contains_key(email@) ==> final(self).spec_misses() == if old(
                self,
            ).spec_misses() == u64::MAX {
                u64::MAX
            } else {
                (old(self).spec_misses() + 1) as u64
            },
    {
        proof {
            use_type_invariant(&*self);
        }
        match slot_get(&self.slot, email) {
            Some(v) => {
                proof {
                    assert(old(self).entries().insert(email@, gravatar_url_of(email@))
                        =~= old(self).entries());
                }
                v
            },
            None => {
                let digest = md5_digest(email);
                let mut url = String::from_str("https://www.gravatar.com/avatar/");
                let tail = crate::hexfmt::hex_encode(digest.as_slice());
                url.append(tail.as_str());
                let ghost url_view = url@;
                let mut slot = slot_new();
                std::mem::swap(&mut slot, &mut self.slot);
                let stored = slot_insert(&mut slot, email, url);
                if self.misses < u64::MAX {
                    self.misses = self.misses + 1;
                }
                proof {
                    assert(url_view == gravatar_url_of(email@));
                    assert forall|k: Seq<char>| #[trigger] slot_entries(slot).contains_key(k)
                        implies slot_entries(slot)[k] == gravatar_url_of(k) by {
                        if k != email@ {
                            assert(old(self).entries().contains_key(k));
                        }
                    }
                }
                std::mem::swap(&mut slot, &mut self.slot);
                stored
            },
        }
    }
}

/// The avatar link filter: the memoized lookup URL for `email`. Never fails;
/// the fallible result mirrors the shape every filter reports through. A hit
/// derives nothing: the miss counter moves only when the address is new.
pub fn gravatar(cache: &mut LookupCache, email: &str) -> (r: Result<&'static str, FilterError>)
    ensures
        r matches Ok(v) && v@ == gravatar_url_of(email@),
        final(cache).entries() == old(cache).entries().insert(email@, gravatar_url_of(email@)),
        old(cache).entries().contains_key(email@) ==> final(cache).spec_misses() == old(
            cache,
        ).spec_misses(),
        !old(cache).entries().contains_key(email@) ==> final(cache).spec_misses() == if old(
            cache,
        ).spec_misses() == u64::MAX {
            u64::MAX
        } else {
            (old(cache).spec_misses() + 1) as u64
        },
{
    Ok(cache.resolve(email))
}

} // verus!
