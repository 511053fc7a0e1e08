//! Small sequence vocabulary shared by the planning model's specifications.
use vstd::prelude::*;

verus! {

/// True if `i` is the first position of `s` whose element satisfies `p`.
pub open spec fn is_first_match<A>(s: Seq<A>, p: spec_fn(A) -> bool, i: int) -> bool {
    &&& 0 <= i < s.len()
    &&& p(s[i])
    &&& forall|j: int| 0 <= j < i ==> !p(#[trigger] s[j])
}

/// The first position of `s` whose element satisfies `p`, or -1 when there is none.
pub open spec fn first_index<A>(s: Seq<A>, p: spec_fn(A) -> bool) -> int {
    if exists|i: int| is_first_match(s, p, i) {
        choose|i: int| is_first_match(s, p, i)
    } else {
        -1
    }
}

/// A first match is unique.
pub proof fn lemma_first_match_unique<A>(s: Seq<A>, p: spec_fn(A) -> bool, i: int, k: int)
    requires
        is_first_match(s, p, i),
        is_first_match(s, p, k),
    ensures
        i == k,
{
    if i < k {
        assert(!p(s[i]));
    } else if k < i {
        assert(!p(s[k]));
    }
}

/// `first_index` names the first match when there is one.
pub proof fn lemma_first_index_is<A>(s: Seq<A>, p: spec_fn(A) -> bool, i: int)
    requires
        is_first_match(s, p, i),
    ensures
        first_index(s, p) == i,
{
    let k = choose|k: int| is_first_match(s, p, k);
    lemma_first_match_unique(s, p, i, k);
}

/// `first_index` is -1 when no element matches.
pub proof fn lemma_first_index_none<A>(s: Seq<A>, p: spec_fn(A) -> bool)
    requires
        forall|j: int| 0 <= j < s.len() ==> !p(#[trigger] s[j]),
    ensures
        first_index(s, p) == -1,
{
}

/// Whenever some element matches, `first_index` is a first match.
pub proof fn lemma_first_index_found<A>(s: Seq<A>, p: spec_fn(A) -> bool, w: int)
    requires
        0 <= w < s.len(),
        p(s[w]),
    ensures
        is_first_match(s, p, first_index(s, p)),
    decreases w,
{
    if forall|j: int| 0 <= j < w ==> !p(#[trigger] s[j]) {
        assert(is_first_match(s, p, w));
    } else {
        let v = choose|j: int| 0 <= j < w && p(#[trigger] s[j]);
        lemma_first_index_found(s, p, v);
    }
}

/// What `first_index` says: -1 exactly when nothing matches, else the first match.
pub proof fn lemma_first_index_cases<A>(s: Seq<A>, p: spec_fn(A) -> bool)
    ensures
        first_index(s, p) == -1 <==> (forall|j: int| 0 <= j < s.len() ==> !p(#[trigger] s[j])),
        first_index(s, p) != -1 ==> is_first_match(s, p, first_index(s, p)),
{
    if exists|j: int| 0 <= j < s.len() && p(#[trigger] s[j]) {
        let w = choose|j: int| 0 <= j < s.len() && p(#[trigger] s[j]);
        lemma_first_index_found(s, p, w);
    }
}

/// Membership in a non-empty sequence: in its front part, or its last element.
pub proof fn lemma_contains_split_last<A>(s: Seq<A>)
    requires
        s.len() > 0,
    ensures
        forall|x: A| s.contains(x) <==> (s.drop_last().contains(x) || x == s.last()),
{
    assert forall|x: A| s.contains(x) <==> (s.drop_last().contains(x) || x == s.last()) by {
        if s.contains(x) {
            let k = choose|k: int| 0 <= k < s.len() && s[k] == x;
            if k < s.len() - 1 {
                assert(s.drop_last()[k] == x);
            }
        }
        if s.drop_last().contains(x) {
            let k = choose|k: int| 0 <= k < s.drop_last().len() && s.drop_last()[k] == x;
            assert(s[k] == x);
        }
        if x == s.last() {
            assert(s[s.len() - 1] == x);
        }
    }
}

/// Membership after a push.
pub proof fn lemma_contains_push<A>(s: Seq<A>, a: A)
    ensures
        forall|x: A| s.push(a).contains(x) <==> (s.contains(x) || x == a),
{
    assert(s.push(a).drop_last() =~= s);
    lemma_contains_split_last(s.push(a));
}

} // verus!
