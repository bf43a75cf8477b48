//! Custom resources addressed by a `cr:<group>/<version>/<plural>/<scope>` token.

use vstd::prelude::*;
use vstd::string::*;

use crate::error::{bad_request, is_bad_request, K8sError};
use crate::text::{
    find_char_from, is_prefix, lemma_sep_index_at, sep_index, slice_text, starts_with_text,
};

verus! {

/// A dynamically described resource kind: API group, version, plural and scope.
pub struct CustomResourceRef {
    pub group: String,
    pub version: String,
    pub plural: String,
    pub scope: String,
}

impl CustomResourceRef {
    /// Instances live inside a namespace.
    pub open spec fn spec_is_namespaced(&self) -> bool {
        self.scope@ == "Namespaced"@
    }

    pub fn is_namespaced(&self) -> (r: bool)
        ensures
            r == self.spec_is_namespaced(),
    {
        self.scope == String::from_str("Namespaced")
    }
}

/// The positions of the three `/` that split a token after its `cr:` prefix.
pub open spec fn token_cuts(t: Seq<char>) -> (int, int, int) {
    let q1 = sep_index(t, '/', "cr:"@.len() as int);
    let q2 = sep_index(t, '/', q1 + 1);
    let q3 = sep_index(t, '/', q2 + 1);
    (q1, q2, q3)
}

/// Whether `kind` names a custom resource rather than a built-in kind.
pub open spec fn is_custom_kind(t: Seq<char>) -> bool {
    is_prefix("cr:"@, t)
}

/// A well-formed token: `cr:` then exactly four `/`-separated segments.
pub open spec fn is_crd_token(t: Seq<char>) -> bool {
    let (q1, q2, q3) = token_cuts(t);
    is_custom_kind(t) && q1 < t.len() && q2 < t.len() && q3 < t.len() && sep_index(t, '/', q3 + 1)
        == t.len()
}

/// The group, version, plural and scope segments of a well-formed token.
pub open spec fn crd_segments(t: Seq<char>) -> (Seq<char>, Seq<char>, Seq<char>, Seq<char>) {
    let (q1, q2, q3) = token_cuts(t);
    (
        t.subrange("cr:"@.len() as int, q1),
        t.subrange(q1 + 1, q2),
        t.subrange(q2 + 1, q3),
        t.subrange(q3 + 1, t.len() as int),
    )
}

/// The token that names a custom resource by group, version, plural and scope.
pub open spec fn crd_token(g: Seq<char>, v: Seq<char>, p: Seq<char>, s: Seq<char>) -> Seq<char> {
    "cr:"@ + g + seq!['/'] + v + seq!['/'] + p + seq!['/'] + s
}

/// A token built from four segments that hold no `/` is well formed, and
/// reading it gives back the same four segments.
pub proof fn law_crd_token_round_trip(g: Seq<char>, v: Seq<char>, p: Seq<char>, s: Seq<char>)
    requires
        !g.contains('/'),
        !v.contains('/'),
        !p.contains('/'),
        !s.contains('/'),
    ensures
        is_crd_token(crd_token(g, v, p, s)),
        crd_segments(crd_token(g, v, p, s)) == (g, v, p, s),
{
    reveal_strlit("cr:");
    let t = crd_token(g, v, p, s);
    let q1: int = 3 + g.len() as int;
    let q2: int = q1 + 1 + v.len() as int;
    let q3: int = q2 + 1 + p.len() as int;
    assert(t.len() == q3 + 1 + s.len());
    assert(t.subrange(0, 3) =~= "cr:"@);
    assert forall|j: int| 3 <= j < q1 implies t[j] != '/' by {
        assert(t[j] == g[j - 3]);
    }
    assert(t[q1] == '/');
    lemma_sep_index_at(t, '/', 3, q1);
    assert forall|j: int| q1 + 1 <= j < q2 implies t[j] != '/' by {
        assert(t[j] == v[j - q1 - 1]);
    }
    assert(t[q2] == '/');
    lemma_sep_index_at(t, '/', q1 + 1, q2);
    assert forall|j: int| q2 + 1 <= j < q3 implies t[j] != '/' by {
        assert(t[j] == p[j - q2 - 1]);
    }
    assert(t[q3] == '/');
    lemma_sep_index_at(t, '/', q2 + 1, q3);
    assert forall|j: int| q3 + 1 <= j < t.len() implies t[j] != '/' by {
        assert(t[j] == s[j - q3 - 1]);
    }
    lemma_sep_index_at(t, '/', q3 + 1, t.len() as int);
    assert(t.subrange(3, q1) =~= g);
    assert(t.subrange(q1 + 1, q2) =~= v);
    assert(t.subrange(q2 + 1, q3) =~= p);
    assert(t.subrange(q3 + 1, t.len() as int) =~= s);
}

/// The message of the error for a malformed token.
pub open spec fn malformed_token_message(t: Seq<char>) -> Seq<char> {
    "Invalid custom resource kind: "@ + t
}

/// Reads a custom-resource token. A token with any other number of segments
/// than four is a `BadRequest`.
pub fn parse_crd_token(token: &str) -> (r: Result<CustomResourceRef, K8sError>)
    ensures
        is_crd_token(token@) <==> r is Ok,
        r is Ok ==> (r->Ok_0.group@, r->Ok_0.version@, r->Ok_0.plural@, r->Ok_0.scope@)
            == crd_segments(token@),
        r is Err ==> is_bad_request(r->Err_0, malformed_token_message(token@)),
{
    let n = token.unicode_len();
    let prefix = "cr:";
    if starts_with_text(token, prefix) {
        let start = prefix.unicode_len();
        let q1 = find_char_from(token, '/', start);
        if q1 < n {
            let q2 = find_char_from(token, '/', q1 + 1);
            if q2 < n {
                let q3 = find_char_from(token, '/', q2 + 1);
                if q3 < n {
                    let q4 = find_char_from(token, '/', q3 + 1);
                    if q4 == n {
                        return Ok(
                            CustomResourceRef {
                                group: slice_text(token, start, q1),
                                version: slice_text(token, q1 + 1, q2),
                                plural: slice_text(token, q2 + 1, q3),
                                scope: slice_text(token, q3 + 1, n),
                            },
                        );
                    }
                }
            }
        }
    }
    Err(bad_request(String::from_str("Invalid custom resource kind: ").concat(token)))
}

} // verus!
