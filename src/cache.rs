//! A cache of cluster clients keyed by connection identity, whose entries
//! expire a fixed time after they were made.

use vstd::prelude::*;

use crate::events::{opt_text, same_opt_text};

verus! {

/// Seconds after its creation at which a cached client is no longer handed out.
pub const CLIENT_TTL_SECS: u64 = 300;

/// Which kubeconfig context, from which kubeconfig file, a client talks to.
pub struct ConnectionIdentity {
    pub context: Option<String>,
    pub kubeconfig_path: Option<String>,
}

/// The text of an identity; two identities with equal text share a client.
pub type IdentityKey = (Option<Seq<char>>, Option<Seq<char>>);

/// A cached client as the cache's model sees it: identity, handle, creation time.
pub type Cached<H> = (IdentityKey, H, u64);

impl ConnectionIdentity {
    pub open spec fn key(&self) -> IdentityKey {
        (opt_text(self.context), opt_text(self.kubeconfig_path))
    }

    /// Whether two identities name the same context in the same file.
    pub fn same_as(&self, other: &ConnectionIdentity) -> (r: bool)
        ensures
            r == (self.key() == other.key()),
    {
        same_opt_text(&self.context, &other.context) && same_opt_text(
            &self.kubeconfig_path,
            &other.kubeconfig_path,
        )
    }
}

/// A client made at `created_at` is too old at `now`.
pub open spec fn expired(created_at: u64, now: u64) -> bool {
    now >= created_at + CLIENT_TTL_SECS
}

/// The entries of `s` that are not too old at `now`, in order.
pub open spec fn live<H>(s: Seq<Cached<H>>, now: u64) -> Seq<Cached<H>>
    decreases s.len(),
{
    if s.len() == 0 {
        s
    } else if expired(s.last().2, now) {
        live(s.drop_last(), now)
    } else {
        live(s.drop_last(), now).push(s.last())
    }
}

/// The entries of `s` for identities other than `key`, in order.
pub open spec fn without<H>(s: Seq<Cached<H>>, key: IdentityKey) -> Seq<Cached<H>>
    decreases s.len(),
{
    if s.len() == 0 {
        s
    } else if s.last().0 == key {
        without(s.drop_last(), key)
    } else {
        without(s.drop_last(), key).push(s.last())
    }
}

/// The handle cached last for `key`, if any.
pub open spec fn find<H>(s: Seq<Cached<H>>, key: IdentityKey) -> Option<H>
    decreases s.len(),
{
    if s.len() == 0 {
        None
    } else if s.last().0 == key {
        Some(s.last().1)
    } else {
        find(s.drop_last(), key)
    }
}

/// No entry of `s` is for `key`.
pub open spec fn lacks<H>(s: Seq<Cached<H>>, key: IdentityKey) -> bool {
    forall|i: int| 0 <= i < s.len() ==> (#[trigger] s[i]).0 != key
}

proof fn lemma_without_lacks<H>(s: Seq<Cached<H>>, key: IdentityKey)
    ensures
        lacks(without(s, key), key),
    decreases s.len(),
{
    if s.len() > 0 {
        lemma_without_lacks(s.drop_last(), key);
    }
}

proof fn lemma_live_lacks<H>(s: Seq<Cached<H>>, key: IdentityKey, now: u64)
    requires
        lacks(s, key),
    ensures
        lacks(live(s, now), key),
    decreases s.len(),
{
    if s.len() > 0 {
        assert(lacks(s.drop_last(), key)) by {
            assert forall|i: int| 0 <= i < s.drop_last().len() implies (#[trigger] s.drop_last()[i]).0 != key by {
                assert(s.drop_last()[i] == s[i]);
            }
        }
        lemma_live_lacks(s.drop_last(), key, now);
        assert(s.last() == s[s.len() - 1]);
    }
}

proof fn lemma_find_lacks<H>(s: Seq<Cached<H>>, key: IdentityKey)
    requires
        lacks(s, key),
    ensures
        find(s, key) is None,
    decreases s.len(),
{
    if s.len() > 0 {
        assert(s.last() == s[s.len() - 1]);
        assert(lacks(s.drop_last(), key)) by {
            assert forall|i: int| 0 <= i < s.drop_last().len() implies (#[trigger] s.drop_last()[i]).0 != key by {
                assert(s.drop_last()[i] == s[i]);
            }
        }
        lemma_find_lacks(s.drop_last(), key);
    }
}

proof fn lemma_live_push<H>(s: Seq<Cached<H>>, e: Cached<H>, now: u64)
    requires
        !expired(e.2, now),
    ensures
        live(s.push(e), now) == live(s, now).push(e),
{
    assert(s.push(e).drop_last() =~= s);
}

/// A client cached at `t0` is what every lookup returns, after the sweeps that
/// precede it at `t1` and then `t2`, as long as the client is younger than
/// `CLIENT_TTL_SECS` at both.
pub proof fn law_cached_client_reused<H>(
    s: Seq<Cached<H>>,
    key: IdentityKey,
    h: H,
    t0: u64,
    t1: u64,
    t2: u64,
)
    requires
        t0 <= t1 <= t2,
        t2 < t0 + CLIENT_TTL_SECS,
    ensures
        find(live(without(s, key).push((key, h, t0)), t1), key) == Some(h),
        find(live(live(without(s, key).push((key, h, t0)), t1), t2), key) == Some(h),
{
    let e = (key, h, t0);
    lemma_live_push(without(s, key), e, t1);
    lemma_live_push(live(without(s, key), t1), e, t2);
}

/// Once a client is `CLIENT_TTL_SECS` old, the sweep that precedes a lookup
/// removes it and no client is found for its identity: a new one must be made.
pub proof fn law_expired_client_rebuilt<H>(
    s: Seq<Cached<H>>,
    key: IdentityKey,
    h: H,
    t0: u64,
    t: u64,
)
    requires
        t >= t0 + CLIENT_TTL_SECS,
    ensures
        find(live(without(s, key).push((key, h, t0)), t), key) is None,
{
    let w = without(s, key);
    assert(w.push((key, h, t0)).drop_last() =~= w);
    lemma_without_lacks(s, key);
    lemma_live_lacks(w, key, t);
    lemma_find_lacks(live(w, t), key);
}

/// Cached clients, each with the identity it serves and the time it was made.
pub struct ClientCache<H> {
    entries: Vec<(ConnectionIdentity, H, u64)>,
}

impl<H> View for ClientCache<H> {
    type V = Seq<Cached<H>>;

    closed spec fn view(&self) -> Seq<Cached<H>> {
        self.entries@.map_values(|e: (ConnectionIdentity, H, u64)| (e.0.key(), e.1, e.2))
    }
}

impl<H> ClientCache<H> {
    /// An empty cache.
    pub fn new() -> (r: ClientCache<H>)
        ensures
            r@ == Seq::<Cached<H>>::empty(),
    {
        let r = ClientCache { entries: Vec::new() };
        assert(r@ =~= Seq::<Cached<H>>::empty());
        r
    }

    /// How many clients are cached.
    pub fn len(&self) -> (r: usize)
        ensures
            r == self@.len(),
    {
        self.entries.len()
    }

    /// Drops every client that is too old at `now`.
    pub fn sweep(&mut self, now: u64)
        ensures
            final(self)@ == live(old(self)@, now),
    {
        let ghost start = self@;
        let ghost n = start.len();
        let mut i: usize = 0;
        let mut k: usize = 0;
        let len0 = self.entries.len();
        assert(n == len0);
        assert(start.subrange(0, 0) =~= Seq::<Cached<H>>::empty());
        assert(self@ =~= live(start.subrange(0, 0), now) + start.subrange(0, n as int));
        while i < self.entries.len()
            invariant
                n == start.len(),
                k <= n,
                n <= usize::MAX,
                self.entries@.len() == i + (n - k),
                i == live(start.subrange(0, k as int), now).len(),
                self@ =~= live(start.subrange(0, k as int), now) + start.subrange(k as int, n as int),
            decreases n - k,
        {
            proof {
                assert(start.subrange(0, k + 1).drop_last() =~= start.subrange(0, k as int));
                assert(self@[i as int] == start[k as int]);
            }
            let ghost pre = self@;
            if self.entries[i].2 >= now || now - self.entries[i].2 < CLIENT_TTL_SECS {
                proof {
                    assert(live(start.subrange(0, k + 1), now) == live(start.subrange(0, k as int), now).push(start[k as int]));
                }
                i += 1;
            } else {
                self.entries.remove(i);
                proof {
                    assert(self@ =~= pre.remove(i as int));
                    assert(live(start.subrange(0, k + 1), now) == live(start.subrange(0, k as int), now));
                }
            }
            k += 1;
            proof {
                assert(self@ =~= live(start.subrange(0, k as int), now) + start.subrange(
                    k as int,
                    n as int,
                ));
            }
        }
        proof {
            assert(start.subrange(0, n as int) =~= start);
            assert(self@ =~= live(start, now));
        }
    }

    /// The client cached for `identity`, if any.
    pub fn lookup(&self, identity: &ConnectionIdentity) -> (r: Option<&H>)
        ensures
            r is Some ==> find(self@, identity.key()) == Some(*r->Some_0),
            r is None ==> find(self@, identity.key()) is None,
    {
        let mut i = self.entries.len();
        assert(self@.subrange(0, i as int) =~= self@);
        while i > 0
            invariant
                i <= self@.len(),
                self@.len() == self.entries@.len(),
                find(self@, identity.key()) == find(self@.subrange(0, i as int), identity.key()),
            decreases i,
        {
            proof {
                assert(self@.subrange(0, i as int).drop_last() =~= self@.subrange(0, i - 1));
                assert(self@[i - 1].0 == self.entries@[i - 1].0.key());
            }
            if self.entries[i - 1].0.same_as(identity) {
                return Some(&self.entries[i - 1].1);
            }
            i -= 1;
        }
        None
    }

    /// Caches `handle` for `identity`, made at `now`, in place of any client
    /// cached for it before.
    pub fn insert(&mut self, identity: ConnectionIdentity, handle: H, now: u64)
        ensures
            final(self)@ == without(old(self)@, identity.key()).push((identity.key(), handle, now)),
    {
        let ghost start = self@;
        let ghost n = start.len();
        let ghost key = identity.key();
        let mut i: usize = 0;
        let mut k: usize = 0;
        let len0 = self.entries.len();
        assert(n == len0);
        assert(start.subrange(0, 0) =~= Seq::<Cached<H>>::empty());
        assert(self@ =~= without(start.subrange(0, 0), key) + start.subrange(0, n as int));
        while i < self.entries.len()
            invariant
                n == start.len(),
                k <= n,
                key == identity.key(),
                n <= usize::MAX,
                self.entries@.len() == i + (n - k),
                i == without(start.subrange(0, k as int), key).len(),
                self@ =~= without(start.subrange(0, k as int), key) + start.subrange(k as int, n as int),
            decreases n - k,
        {
            proof {
                assert(start.subrange(0, k + 1).drop_last() =~= start.subrange(0, k as int));
                assert(self@[i as int] == start[k as int]);
            }
            let ghost pre = self@;
            if self.entries[i].0.same_as(&identity) {
                self.entries.remove(i);
                proof {
                    assert(self@ =~= pre.remove(i as int));
                    assert(without(start.subrange(0, k + 1), key) == without(start.subrange(0, k as int), key));
                }
            } else {
                proof {
                    assert(without(start.subrange(0, k + 1), key) == without(start.subrange(0, k as int), key).push(start[k as int]));
                }
                i += 1;
            }
            k += 1;
            proof {
                assert(self@ =~= without(start.subrange(0, k as int), key) + start.subrange(
                    k as int,
                    n as int,
                ));
            }
        }
        proof {
            assert(start.subrange(0, n as int) =~= start);
        }
        self.entries.push((identity, handle, now));
        assert(self@ =~= without(start, key).push((key, handle, now)));
    }

    /// Forgets every cached client, as when the kubeconfig in use changes.
    pub fn invalidate_all(&mut self)
        ensures
            final(self)@ == Seq::<Cached<H>>::empty(),
    {
        self.entries = Vec::new();
        assert(self@ =~= Seq::<Cached<H>>::empty());
    }
}

} // verus!
