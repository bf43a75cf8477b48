//! Live watches: which stream items reach the front end, and the registry
//! of running watch tasks by id.

use vstd::prelude::*;

use crate::events::opt_text;
use crate::text::same_text;

verus! {

/// An item of a watch stream.
#[derive(PartialEq, Eq, Structural, Clone, Copy, Debug)]
pub enum WatchEvent {
    /// An object was added or changed.
    Apply,
    /// An object listed while the stream (re)starts.
    InitApply,
    /// An object was deleted.
    Delete,
    /// The stream starts listing.
    Init,
    /// The stream has finished listing.
    InitDone,
}

/// What the front end is told about an object.
#[derive(PartialEq, Eq, Structural, Clone, Copy, Debug)]
pub enum EventType {
    Modified,
    Deleted,
}

impl EventType {
    pub open spec fn spec_name(self) -> Seq<char> {
        match self {
            EventType::Modified => "modified"@,
            EventType::Deleted => "deleted"@,
        }
    }

    /// The name under which the event type is sent.
    pub fn name(&self) -> (r: &'static str)
        ensures
            r@ == self.spec_name(),
    {
        match self {
            EventType::Modified => "modified",
            EventType::Deleted => "deleted",
        }
    }
}

/// The event sent for a stream item: changes and listings are `modified`,
/// deletions `deleted`; the start and end of a listing send nothing.
pub open spec fn spec_normalize(e: WatchEvent) -> Option<EventType> {
    match e {
        WatchEvent::Apply | WatchEvent::InitApply => Some(EventType::Modified),
        WatchEvent::Delete => Some(EventType::Deleted),
        WatchEvent::Init | WatchEvent::InitDone => None,
    }
}

/// The event sent for a stream item, if any.
pub fn normalize_event(e: WatchEvent) -> (r: Option<EventType>)
    ensures
        r == spec_normalize(e),
{
    match e {
        WatchEvent::Apply | WatchEvent::InitApply => Some(EventType::Modified),
        WatchEvent::Delete => Some(EventType::Deleted),
        WatchEvent::Init | WatchEvent::InitDone => None,
    }
}

/// A running watch: its id, the kind and namespace it follows, and its task.
pub struct WatchRegistration<T> {
    pub watch_id: String,
    pub kind: String,
    pub namespace: Option<String>,
    pub task: T,
}

/// A registration as the registry's model sees it: id, kind, namespace, task.
pub type Registered<T> = (Seq<char>, Seq<char>, Option<Seq<char>>, T);

pub open spec fn registered<T>(r: WatchRegistration<T>) -> Registered<T> {
    (r.watch_id@, r.kind@, opt_text(r.namespace), r.task)
}

/// Some registration has id `id`.
pub open spec fn has_id<T>(s: Seq<Registered<T>>, id: Seq<char>) -> bool {
    exists|i: int| 0 <= i < s.len() && (#[trigger] s[i]).0 == id
}

/// No two registrations share an id.
pub open spec fn ids_unique<T>(s: Seq<Registered<T>>) -> bool {
    forall|i: int, j: int| 0 <= i < j < s.len() ==> (#[trigger] s[i]).0 != (#[trigger] s[j]).0
}

/// The registrations whose id is not `id`, in order.
pub open spec fn drop_id<T>(s: Seq<Registered<T>>, id: Seq<char>) -> Seq<Registered<T>>
    decreases s.len(),
{
    if s.len() == 0 {
        s
    } else if s.last().0 == id {
        drop_id(s.drop_last(), id)
    } else {
        drop_id(s.drop_last(), id).push(s.last())
    }
}

/// The task registered last under `id`, if any.
pub open spec fn task_of<T>(s: Seq<Registered<T>>, id: Seq<char>) -> Option<T>
    decreases s.len(),
{
    if s.len() == 0 {
        None
    } else if s.last().0 == id {
        Some(s.last().3)
    } else {
        task_of(s.drop_last(), id)
    }
}

proof fn lemma_drop_id_lacks<T>(s: Seq<Registered<T>>, id: Seq<char>)
    ensures
        !has_id(drop_id(s, id), id),
        forall|i: int|
            0 <= i < drop_id(s, id).len() ==> s.contains(#[trigger] drop_id(s, id)[i]),
    decreases s.len(),
{
    if s.len() > 0 {
        lemma_drop_id_lacks(s.drop_last(), id);
        let d = drop_id(s.drop_last(), id);
        assert forall|i: int| 0 <= i < drop_id(s, id).len() implies s.contains(
            #[trigger] drop_id(s, id)[i],
        ) by {
            if i < d.len() {
                assert(s.drop_last().contains(d[i]));
                let j = choose|j: int| 0 <= j < s.drop_last().len() && s.drop_last()[j] == d[i];
                assert(s[j] == d[i]);
            } else {
                assert(s[s.len() - 1] == drop_id(s, id)[i]);
            }
        }
    }
}

proof fn lemma_lacking_unchanged<T>(s: Seq<Registered<T>>, id: Seq<char>)
    requires
        !has_id(s, id),
    ensures
        drop_id(s, id) == s,
        task_of(s, id) is None,
    decreases s.len(),
{
    if s.len() > 0 {
        assert(s.last() == s[s.len() - 1]);
        assert(!has_id(s.drop_last(), id)) by {
            if has_id(s.drop_last(), id) {
                let j = choose|j: int| 0 <= j < s.drop_last().len() && (#[trigger] s.drop_last()[j]).0 == id;
                assert(s[j] == s.drop_last()[j]);
            }
        }
        lemma_lacking_unchanged(s.drop_last(), id);
        assert(s.drop_last().push(s.last()) =~= s);
    }
}

proof fn lemma_drop_id_unique<T>(s: Seq<Registered<T>>, id: Seq<char>)
    requires
        ids_unique(s),
    ensures
        ids_unique(drop_id(s, id)),
    decreases s.len(),
{
    if s.len() > 0 {
        let p = s.drop_last();
        assert(ids_unique(p)) by {
            assert forall|a: int, b: int| 0 <= a < b < p.len() implies (#[trigger] p[a]).0
                != (#[trigger] p[b]).0 by {
                assert(p[a] == s[a] && p[b] == s[b]);
            }
        }
        lemma_drop_id_unique(p, id);
        lemma_drop_id_lacks(p, id);
        let d = drop_id(p, id);
        if s.last().0 != id {
            let x = s.last();
            assert forall|a: int, b: int| 0 <= a < b < d.push(x).len() implies (#[trigger] d.push(
                x,
            )[a]).0 != (#[trigger] d.push(x)[b]).0 by {
                if b == d.len() {
                    assert(p.contains(d[a]));
                    let j = choose|j: int| 0 <= j < p.len() && p[j] == d[a];
                    assert(s[j] == d[a]);
                    assert(s[s.len() - 1] == x);
                } else {
                    assert(d.push(x)[a] == d[a] && d.push(x)[b] == d[b]);
                }
            }
        }
    }
}

/// Stopping a watch twice is harmless: the second stop finds no task and
/// leaves the registry as the first one left it; after the first, no
/// registration has the id.
pub proof fn law_stop_twice<T>(s: Seq<Registered<T>>, id: Seq<char>)
    ensures
        !has_id(drop_id(s, id), id),
        task_of(drop_id(s, id), id) is None,
        drop_id(drop_id(s, id), id) == drop_id(s, id),
{
    lemma_drop_id_lacks(s, id);
    lemma_lacking_unchanged(drop_id(s, id), id);
}

/// The running watches, by id.
pub struct WatchRegistry<T> {
    entries: Vec<WatchRegistration<T>>,
}

impl<T> View for WatchRegistry<T> {
    type V = Seq<Registered<T>>;

    closed spec fn view(&self) -> Seq<Registered<T>> {
        self.entries@.map_values(|r: WatchRegistration<T>| registered(r))
    }
}

impl<T> WatchRegistry<T> {
    /// An empty registry.
    pub fn new() -> (r: WatchRegistry<T>)
        ensures
            r@ == Seq::<Registered<T>>::empty(),
            ids_unique(r@),
    {
        let r = WatchRegistry { entries: Vec::new() };
        assert(r@ =~= Seq::<Registered<T>>::empty());
        r
    }

    /// How many watches are registered.
    pub fn len(&self) -> (r: usize)
        ensures
            r == self@.len(),
    {
        self.entries.len()
    }

    /// Whether a watch with id `id` is registered.
    pub fn contains(&self, id: &str) -> (r: bool)
        ensures
            r == has_id(self@, id@),
    {
        let mut i: usize = 0;
        while i < self.entries.len()
            invariant
                i <= self.entries@.len(),
                self@.len() == self.entries@.len(),
                forall|j: int| 0 <= j < i ==> (#[trigger] self@[j]).0 != id@,
            decreases self.entries@.len() - i,
        {
            assert(self@[i as int].0 == self.entries@[i as int].watch_id@);
            if same_text(self.entries[i].watch_id.as_str(), id) {
                return true;
            }
            i += 1;
        }
        false
    }

    /// Registers a running watch. A registration whose id is taken is refused
    /// and handed back: at most one task runs per id.
    pub fn register(&mut self, registration: WatchRegistration<T>) -> (r: Result<
        (),
        WatchRegistration<T>,
    >)
        ensures
            has_id(old(self)@, registration.watch_id@) ==> r == Err::<(), WatchRegistration<T>>(
                registration,
            ) && final(self)@ == old(self)@,
            !has_id(old(self)@, registration.watch_id@) ==> r is Ok && final(self)@ == old(
                self,
            )@.push(registered(registration)),
            ids_unique(old(self)@) ==> ids_unique(final(self)@),
    {
        if self.contains(registration.watch_id.as_str()) {
            return Err(registration);
        }
        let ghost start = self@;
        self.entries.push(registration);
        assert(self@ =~= start.push(registered(registration)));
        Ok(())
    }

    /// Unregisters the watch `id` and hands back its task, for the caller to
    /// cancel. An id that is not registered gives `None` and changes nothing.
    pub fn stop(&mut self, id: &str) -> (r: Option<T>)
        ensures
            r == task_of(old(self)@, id@),
            final(self)@ == drop_id(old(self)@, id@),
            !has_id(final(self)@, id@),
            ids_unique(old(self)@) ==> ids_unique(final(self)@),
    {
        let ghost start = self@;
        let ghost n = start.len();
        let len0 = self.entries.len();
        assert(n == len0);
        let mut found: Option<T> = None;
        let mut i: usize = 0;
        let mut k: usize = 0;
        assert(start.subrange(0, 0) =~= Seq::<Registered<T>>::empty());
        assert(self@ =~= drop_id(start.subrange(0, 0), id@) + start.subrange(0, n as int));
        while i < self.entries.len()
            invariant
                n == start.len(),
                k <= n,
                n <= usize::MAX,
                self.entries@.len() == i + (n - k),
                i == drop_id(start.subrange(0, k as int), id@).len(),
                self@ =~= drop_id(start.subrange(0, k as int), id@) + start.subrange(k as int, n as int),
                found == task_of(start.subrange(0, k as int), id@),
            decreases n - k,
        {
            proof {
                assert(start.subrange(0, k + 1).drop_last() =~= start.subrange(0, k as int));
                assert(self@[i as int] == start[k as int]);
            }
            let ghost pre = self@;
            if same_text(self.entries[i].watch_id.as_str(), id) {
                let removed = self.entries.remove(i);
                found = Some(removed.task);
                proof {
                    assert(self@ =~= pre.remove(i as int));
                }
            } else {
                i += 1;
            }
            k += 1;
            proof {
                assert(self@ =~= drop_id(start.subrange(0, k as int), id@) + start.subrange(
                    k as int,
                    n as int,
                ));
            }
        }
        proof {
            assert(start.subrange(0, n as int) =~= start);
            lemma_drop_id_lacks(start, id@);
            if ids_unique(start) {
                lemma_drop_id_unique(start, id@);
            }
        }
        found
    }
}

} // verus!
