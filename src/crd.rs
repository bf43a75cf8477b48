//! Grouping the cluster's custom resource definitions by API group for display.

use vstd::prelude::*;

use crate::order::{lemma_lex_irreflexive, lemma_lex_total, lemma_lex_transitive, lex_lt, text_lt};
use crate::text::same_text;

verus! {

/// One version that a definition declares, and whether the server serves it.
pub struct CrdVersion {
    pub name: String,
    pub served: bool,
}

/// What the grouping reads of a custom resource definition.
pub struct CrdRecord {
    pub group: String,
    pub kind: String,
    pub plural: String,
    pub scope: String,
    pub versions: Vec<CrdVersion>,
}

/// A custom resource as listed under its group.
pub struct CrdResource {
    pub kind: String,
    pub plural: String,
    pub version: String,
    pub scope: String,
}

/// An API group and the custom resources it defines.
pub struct CrdGroup {
    pub group: String,
    pub resources: Vec<CrdResource>,
}

/// A listed resource as text: kind, plural, version, scope.
pub type ResourceText = (Seq<char>, Seq<char>, Seq<char>, Seq<char>);

/// The name of the first served version from position `i` on, or empty text.
pub open spec fn served_from(vs: Seq<CrdVersion>, i: int) -> Seq<char>
    decreases vs.len() - i,
{
    if i < 0 || i >= vs.len() {
        Seq::empty()
    } else if vs[i].served {
        vs[i].name@
    } else {
        served_from(vs, i + 1)
    }
}

/// The resource that a definition is listed as.
pub open spec fn listed(c: CrdRecord) -> ResourceText {
    (c.kind@, c.plural@, served_from(c.versions@, 0), c.scope@)
}

pub open spec fn resource_text(r: CrdResource) -> ResourceText {
    (r.kind@, r.plural@, r.version@, r.scope@)
}

/// The resources of group `g` among the first `n` definitions, in order.
pub open spec fn in_group(crds: Seq<CrdRecord>, g: Seq<char>, n: int) -> Seq<ResourceText>
    decreases n,
{
    if n <= 0 {
        Seq::empty()
    } else if crds[n - 1].group@ == g {
        in_group(crds, g, n - 1).push(listed(crds[n - 1]))
    } else {
        in_group(crds, g, n - 1)
    }
}

/// The texts of a group's resources.
pub open spec fn texts(rs: Seq<CrdResource>) -> Seq<ResourceText> {
    rs.map_values(|r: CrdResource| resource_text(r))
}

/// Resources in order of kind name.
pub open spec fn sorted_by_kind(rs: Seq<CrdResource>) -> bool {
    forall|a: int, b: int| 0 <= a < b < rs.len() ==> !lex_lt(#[trigger] rs[b].kind@, #[trigger] rs[a].kind@)
}

/// Groups in strictly increasing order of name.
pub open spec fn sorted_by_group(gs: Seq<CrdGroup>) -> bool {
    forall|a: int, b: int| 0 <= a < b < gs.len() ==> lex_lt(#[trigger] gs[a].group@, #[trigger] gs[b].group@)
}

/// The grouping of the first `n` definitions as `gs` shows it.
pub open spec fn groups_the_first(gs: Seq<CrdGroup>, crds: Seq<CrdRecord>, n: int) -> bool {
    &&& sorted_by_group(gs)
    &&& forall|i: int| 0 <= i < gs.len() ==> sorted_by_kind(#[trigger] gs[i].resources@)
    &&& forall|i: int| 0 <= i < gs.len() ==> (#[trigger] gs[i].resources@).len() > 0
    &&& forall|i: int| 0 <= i < gs.len() ==> texts(#[trigger] gs[i].resources@).to_multiset()
        == in_group(crds, gs[i].group@, n).to_multiset()
    &&& forall|j: int| 0 <= j < n ==> exists|i: int| 0 <= i < gs.len() && #[trigger] gs[i].group@ == (#[trigger] crds[j]).group@
}

/// The name of the first version that is served, or empty text when none is.
pub fn first_served_version(versions: &Vec<CrdVersion>) -> (r: String)
    ensures
        r@ == served_from(versions@, 0),
{
    let mut i: usize = 0;
    while i < versions.len()
        invariant
            i <= versions@.len(),
            served_from(versions@, 0) == served_from(versions@, i as int),
        decreases versions@.len() - i,
    {
        if versions[i].served {
            return versions[i].name.clone();
        }
        i += 1;
    }
    String::new()
}

proof fn lemma_in_group_source(crds: Seq<CrdRecord>, g: Seq<char>, n: int)
    requires
        0 <= n <= crds.len(),
        in_group(crds, g, n).len() > 0,
    ensures
        exists|j: int| 0 <= j < n && (#[trigger] crds[j]).group@ == g,
    decreases n,
{
    if crds[n - 1].group@ != g {
        lemma_in_group_source(crds, g, n - 1);
    }
}

/// Adds `r` to resources ordered by kind, after those of the same kind.
fn insert_by_kind(rs: &mut Vec<CrdResource>, r: CrdResource)
    requires
        sorted_by_kind(old(rs)@),
    ensures
        sorted_by_kind(final(rs)@),
        final(rs)@.len() == old(rs)@.len() + 1,
        texts(final(rs)@).to_multiset() == texts(old(rs)@).to_multiset().insert(resource_text(r)),
{
    let mut q: usize = 0;
    while q < rs.len() && !text_lt(r.kind.as_str(), rs[q].kind.as_str())
        invariant
            q <= rs@.len(),
            forall|i: int| 0 <= i < q ==> !lex_lt(r.kind@, (#[trigger] rs@[i]).kind@),
        decreases rs@.len() - q,
    {
        q += 1;
    }
    let ghost before = rs@;
    let ghost t = resource_text(r);
    rs.insert(q, r);
    proof {
        assert(rs@ =~= before.insert(q as int, r));
        assert forall|a: int, b: int| 0 <= a < b < rs@.len() implies !lex_lt(
            #[trigger] rs@[b].kind@,
            #[trigger] rs@[a].kind@,
        ) by {
            if a < q && b == q {
            } else if a == q && b > q {
                let o = before[b - 1];
                assert(rs@[b] == o);
                assert(lex_lt(r.kind@, before[q as int].kind@));
                if lex_lt(o.kind@, r.kind@) {
                    lemma_lex_transitive(o.kind@, r.kind@, before[q as int].kind@);
                    if b - 1 == q {
                        lemma_lex_irreflexive(o.kind@);
                    }
                }
            } else if a < q && b > q {
                assert(rs@[a] == before[a] && rs@[b] == before[b - 1]);
            } else if b < q {
                assert(rs@[a] == before[a] && rs@[b] == before[b]);
            } else {
                assert(rs@[a] == before[a - 1] && rs@[b] == before[b - 1]);
            }
        }
        let after = texts(rs@);
        assert(after =~= texts(before).insert(q as int, t));
        assert(after.remove(q as int) =~= texts(before));
        after.to_multiset_ensures();
        assert(after[q as int] == t);
        assert(after.to_multiset().count(t) > 0);
        assert(after.to_multiset() =~= texts(before).to_multiset().insert(t));
    }
}

/// Groups the definitions by API group: groups come in increasing order of
/// name, each group's resources in order of kind, and each definition is
/// listed once, under its own group, with its first served version (empty
/// text when no version is served).
pub fn list_crd_groups(crds: &Vec<CrdRecord>) -> (r: Vec<CrdGroup>)
    ensures
        groups_the_first(r@, crds@, crds@.len() as int),
{
    let mut groups: Vec<CrdGroup> = Vec::new();
    let mut k: usize = 0;
    while k < crds.len()
        invariant
            k <= crds@.len(),
            groups_the_first(groups@, crds@, k as int),
        decreases crds@.len() - k,
    {
        let c = &crds[k];
        let res = CrdResource {
            kind: c.kind.clone(),
            plural: c.plural.clone(),
            version: first_served_version(&c.versions),
            scope: c.scope.clone(),
        };
        let ghost g = c.group@;
        let ghost t = resource_text(res);
        assert(t == listed(crds@[k as int]));
        let mut p: usize = 0;
        while p < groups.len() && text_lt(groups[p].group.as_str(), c.group.as_str())
            invariant
                p <= groups@.len(),
                g == c.group@,
                forall|i: int| 0 <= i < p ==> lex_lt((#[trigger] groups@[i]).group@, g),
            decreases groups@.len() - p,
        {
            p += 1;
        }
        let ghost before = groups@;
        proof {
            assert forall|h: Seq<char>| h != g implies #[trigger] in_group(crds@, h, k + 1) == in_group(crds@, h, k as int) by {}
            assert(in_group(crds@, g, k + 1) == in_group(crds@, g, k as int).push(t));
        }
        if p < groups.len() && same_text(groups[p].group.as_str(), c.group.as_str()) {
            let mut grp = groups.remove(p);
            insert_by_kind(&mut grp.resources, res);
            groups.insert(p, grp);
            proof {
                assert(groups@ =~= before.update(p as int, grp));
                in_group(crds@, g, k as int).to_multiset_ensures();
                assert forall|i: int| 0 <= i < groups@.len() implies texts(#[trigger] groups@[i].resources@).to_multiset()
                    == in_group(crds@, groups@[i].group@, k + 1).to_multiset() by {
                    if i != p {
                        assert(groups@[i] == before[i]);
                        assert(before[i].group@ != g) by {
                            assert(lex_lt(before[i].group@, before[p as int].group@) || lex_lt(before[p as int].group@, before[i].group@));
                            if before[i].group@ == g {
                                lemma_lex_irreflexive(g);
                            }
                        }
                    }
                }
                assert forall|j: int| 0 <= j < k + 1 implies exists|i: int| 0 <= i < groups@.len() && #[trigger] groups@[i].group@ == (#[trigger] crds@[j]).group@ by {
                    if j == k {
                        assert(groups@[p as int].group@ == crds@[j].group@);
                    } else {
                        let i = choose|i: int| 0 <= i < before.len() && #[trigger] before[i].group@ == crds@[j].group@;
                        assert(groups@[i].group@ == before[i].group@);
                    }
                }
            }
        } else {
            let mut resources: Vec<CrdResource> = Vec::new();
            resources.push(res);
            let grp = CrdGroup { group: c.group.clone(), resources };
            groups.insert(p, grp);
            proof {
                assert(groups@ =~= before.insert(p as int, grp));
                // `g` had no group yet, so none of the first `k` definitions was in it.
                assert forall|i: int| 0 <= i < before.len() implies #[trigger] before[i].group@ != g by {
                    if i < p {
                        lemma_lex_irreflexive(g);
                    } else {
                        if p < before.len() {
                            assert(before[p as int].group@ != g);
                            lemma_lex_total(before[p as int].group@, g);
                            if i > p && before[i].group@ == g {
                                lemma_lex_transitive(g, before[p as int].group@, before[i].group@);
                                lemma_lex_irreflexive(g);
                            }
                        }
                    }
                }
                if in_group(crds@, g, k as int).len() > 0 {
                    lemma_in_group_source(crds@, g, k as int);
                    let j = choose|j: int| 0 <= j < k && (#[trigger] crds@[j]).group@ == g;
                    let i = choose|i: int| 0 <= i < before.len() && #[trigger] before[i].group@ == crds@[j].group@;
                    assert(before[i].group@ == g);
                }
                assert(in_group(crds@, g, k as int) =~= Seq::<ResourceText>::empty());
                assert(in_group(crds@, g, k + 1) =~= seq![t]);
                assert(texts(grp.resources@) =~= seq![t]);
                assert(sorted_by_group(groups@)) by {
                    assert forall|a: int, b: int| 0 <= a < b < groups@.len() implies lex_lt(
                        #[trigger] groups@[a].group@,
                        #[trigger] groups@[b].group@,
                    ) by {
                        if a == p {
                            let o = before[b - 1];
                            lemma_lex_total(before[p as int].group@, g);
                            if b - 1 > p {
                                lemma_lex_transitive(g, before[p as int].group@, o.group@);
                            }
                        } else if b == p {
                        } else if a < p && b > p {
                            assert(groups@[a] == before[a] && groups@[b] == before[b - 1]);
                        } else if b < p {
                            assert(groups@[a] == before[a] && groups@[b] == before[b]);
                        } else {
                            assert(groups@[a] == before[a - 1] && groups@[b] == before[b - 1]);
                        }
                    }
                }
                assert forall|i: int| 0 <= i < groups@.len() implies texts(#[trigger] groups@[i].resources@).to_multiset()
                    == in_group(crds@, groups@[i].group@, k + 1).to_multiset() by {
                    if i < p {
                        assert(groups@[i] == before[i]);
                    } else if i > p {
                        assert(groups@[i] == before[i - 1]);
                    }
                }
                assert forall|j: int| 0 <= j < k + 1 implies exists|i: int| 0 <= i < groups@.len() && #[trigger] groups@[i].group@ == (#[trigger] crds@[j]).group@ by {
                    if j == k {
                        assert(groups@[p as int].group@ == crds@[j].group@);
                    } else {
                        let i = choose|i: int| 0 <= i < before.len() && #[trigger] before[i].group@ == crds@[j].group@;
                        if i < p {
                            assert(groups@[i].group@ == before[i].group@);
                        } else {
                            assert(groups@[i + 1].group@ == before[i].group@);
                        }
                    }
                }
            }
        }
        k += 1;
    }
    groups
}

} // verus!
