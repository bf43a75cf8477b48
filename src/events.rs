//! Which events concern a given resource instance.

use vstd::prelude::*;

use crate::kinds::{kind_by_detail_name, ResourceKind};
use crate::text::same_text;

verus! {

/// The object an event is about, as the event names it.
pub struct InvolvedObject {
    pub kind: Option<String>,
    pub name: Option<String>,
    pub namespace: Option<String>,
}

/// The characters of an optional string.
pub open spec fn opt_text(o: Option<String>) -> Option<Seq<char>> {
    match o {
        Some(s) => Some(s@),
        None => None,
    }
}

/// The event's object is the instance `name` of `kind` in `namespace`; an
/// object without a namespace matches a request without one.
pub open spec fn involves(
    o: InvolvedObject,
    kind: Seq<char>,
    name: Seq<char>,
    namespace: Option<Seq<char>>,
) -> bool {
    opt_text(o.kind) == Some(kind) && opt_text(o.name) == Some(name) && opt_text(o.namespace)
        == namespace
}

/// The positions, in order, of the first `n` objects that `involves` accepts.
pub open spec fn related_upto(
    objects: Seq<InvolvedObject>,
    kind: Seq<char>,
    name: Seq<char>,
    namespace: Option<Seq<char>>,
    n: int,
) -> Seq<usize>
    decreases n,
{
    if n <= 0 {
        Seq::empty()
    } else {
        let before = related_upto(objects, kind, name, namespace, n - 1);
        if involves(objects[n - 1], kind, name, namespace) {
            before.push((n - 1) as usize)
        } else {
            before
        }
    }
}

/// An event is listed for an instance exactly when its involved object is
/// that instance: same kind, same name and same namespace (both absent counts
/// as the same); every other event, of another kind, name or namespace, is left out.
pub proof fn law_related_exactly(
    objects: Seq<InvolvedObject>,
    kind: Seq<char>,
    name: Seq<char>,
    namespace: Option<Seq<char>>,
    n: int,
)
    requires
        0 <= n <= objects.len() <= usize::MAX,
    ensures
        forall|i: usize|
            #[trigger] related_upto(objects, kind, name, namespace, n).contains(i) <==> (i < n
                && involves(objects[i as int], kind, name, namespace)),
    decreases n,
{
    if n > 0 {
        law_related_exactly(objects, kind, name, namespace, n - 1);
        let before = related_upto(objects, kind, name, namespace, n - 1);
        let now = related_upto(objects, kind, name, namespace, n);
        assert forall|i: usize| #[trigger] now.contains(i) <==> (i < n && involves(
            objects[i as int],
            kind,
            name,
            namespace,
        )) by {
            if involves(objects[n - 1], kind, name, namespace) {
                let last = (n - 1) as usize;
                assert(last as int == n - 1);
                assert(now == before.push(last));
                if now.contains(i) {
                    let j = choose|j: int| 0 <= j < now.len() && now[j] == i;
                    if j < before.len() {
                        assert(before[j] == i);
                        assert(before.contains(i));
                    } else {
                        assert(i == last);
                    }
                }
                if i as int == n - 1 {
                    assert(now[before.len() as int] == i);
                } else if (i as int) < n - 1 && involves(objects[i as int], kind, name, namespace) {
                    assert(before.contains(i));
                    let j = choose|j: int| 0 <= j < before.len() && before[j] == i;
                    assert(now[j] == before[j]);
                }
            } else {
                assert(now == before);
            }
        }
    }
}

/// Whether the detail view of `kind` (a singular name) lists related events.
pub open spec fn spec_is_event_bearing(kind: Seq<char>) -> bool {
    match kind_by_detail_name(kind) {
        Some(k) => k.spec_event_bearing(),
        None => false,
    }
}

/// Whether two optional strings hold the same text.
pub fn same_opt_text(a: &Option<String>, b: &Option<String>) -> (r: bool)
    ensures
        r == (opt_text(*a) == opt_text(*b)),
{
    match (a, b) {
        (Some(x), Some(y)) => same_text(x.as_str(), y.as_str()),
        (None, None) => true,
        _ => false,
    }
}

fn is_text(a: &Option<String>, b: &str) -> (r: bool)
    ensures
        r == (opt_text(*a) == Some(b@)),
{
    match a {
        Some(x) => same_text(x.as_str(), b),
        None => false,
    }
}

/// Whether an event with this involved object concerns the instance `name` of `kind` in `namespace`.
pub fn is_involved(o: &InvolvedObject, kind: &str, name: &str, namespace: &Option<String>) -> (r:
    bool)
    ensures
        r == involves(*o, kind@, name@, opt_text(*namespace)),
{
    is_text(&o.kind, kind) && is_text(&o.name, name) && same_opt_text(&o.namespace, namespace)
}

/// The positions, in order, of the events whose involved object is the
/// instance `name` of `kind` in `namespace`.
pub fn related_event_indices(
    objects: &Vec<InvolvedObject>,
    kind: &str,
    name: &str,
    namespace: &Option<String>,
) -> (r: Vec<usize>)
    ensures
        r@ == related_upto(objects@, kind@, name@, opt_text(*namespace), objects@.len() as int),
{
    let mut r: Vec<usize> = Vec::new();
    let mut i: usize = 0;
    while i < objects.len()
        invariant
            i <= objects@.len(),
            r@ == related_upto(objects@, kind@, name@, opt_text(*namespace), i as int),
        decreases objects@.len() - i,
    {
        if is_involved(&objects[i], kind, name, namespace) {
            r.push(i);
        }
        i += 1;
    }
    r
}

/// Whether the detail view of `kind` (a singular name) lists related events:
/// Pod, Deployment, ReplicaSet, StatefulSet, DaemonSet, Service, Job, CronJob,
/// ConfigMap, Secret, PersistentVolume and PersistentVolumeClaim do.
pub fn is_event_bearing(kind: &str) -> (r: bool)
    ensures
        r == spec_is_event_bearing(kind@),
{
    match ResourceKind::from_detail_name(kind) {
        Some(k) => k.is_event_bearing(),
        None => false,
    }
}

} // verus!
