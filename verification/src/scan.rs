//! Searching a sequence for the first or the last element with a property.

use vstd::prelude::*;

verus! {

/// The least index of `s` whose element satisfies `p`, if there is one.
pub open spec fn first_where<A>(s: Seq<A>, p: spec_fn(A) -> bool) -> Option<int>
    decreases s.len(),
{
    if s.len() == 0 {
        None
    } else {
        match first_where(s.drop_last(), p) {
            Some(i) => Some(i),
            None => if p(s.last()) {
                Some(s.len() - 1)
            } else {
                None
            },
        }
    }
}

/// The greatest index of `s` whose element satisfies `p`, if there is one.
pub open spec fn last_where<A>(s: Seq<A>, p: spec_fn(A) -> bool) -> Option<int>
    decreases s.len(),
{
    if s.len() == 0 {
        None
    } else if p(s.last()) {
        Some(s.len() - 1)
    } else {
        last_where(s.drop_last(), p)
    }
}

/// `first_where` finds an element with the property, nothing before it has
/// the property, and it finds nothing only if no element has it.
pub proof fn lemma_first_where<A>(s: Seq<A>, p: spec_fn(A) -> bool)
    ensures
        match first_where(s, p) {
            Some(i) => 0 <= i < s.len() && p(s[i]) && forall|j: int| 0 <= j < i ==> !p(s[j]),
            None => forall|j: int| 0 <= j < s.len() ==> !p(s[j]),
        },
    decreases s.len(),
{
    if s.len() > 0 {
        let front = s.drop_last();
        lemma_first_where(front, p);
        assert forall|j: int| 0 <= j < front.len() implies front[j] == s[j] by {}
        match first_where(front, p) {
            Some(i) => {
                assert(p(front[i]));
                assert forall|j: int| 0 <= j < i implies !p(s[j]) by {
                    assert(!p(front[j]));
                }
            },
            None => {
                assert forall|j: int| 0 <= j < front.len() implies !p(s[j]) by {
                    assert(!p(front[j]));
                }
            },
        }
    }
}

/// `last_where` finds an element with the property, nothing after it has
/// the property, and it finds nothing only if no element has it.
pub proof fn lemma_last_where<A>(s: Seq<A>, p: spec_fn(A) -> bool)
    ensures
        match last_where(s, p) {
            Some(i) => 0 <= i < s.len() && p(s[i]) && forall|j: int| i < j < s.len() ==> !p(s[j]),
            None => forall|j: int| 0 <= j < s.len() ==> !p(s[j]),
        },
    decreases s.len(),
{
    if s.len() > 0 && !p(s.last()) {
        let front = s.drop_last();
        lemma_last_where(front, p);
        assert forall|j: int| 0 <= j < front.len() implies front[j] == s[j] by {}
        match last_where(front, p) {
            Some(i) => {
                assert(p(front[i]));
                assert forall|j: int| i < j < s.len() implies !p(s[j]) by {
                    if j < front.len() {
                        assert(!p(front[j]));
                    }
                }
            },
            None => {
                assert forall|j: int| 0 <= j < s.len() implies !p(s[j]) by {
                    if j < front.len() {
                        assert(!p(front[j]));
                    }
                }
            },
        }
    }
}

/// An index with the property, before which nothing has it, is the one
/// `first_where` finds.
pub proof fn lemma_first_where_is<A>(s: Seq<A>, p: spec_fn(A) -> bool, i: int)
    requires
        0 <= i < s.len(),
        p(s[i]),
        forall|j: int| 0 <= j < i ==> !p(s[j]),
    ensures
        first_where(s, p) == Some(i),
{
    lemma_first_where(s, p);
}

/// An index with the property, after which nothing has it, is the one
/// `last_where` finds.
pub proof fn lemma_last_where_is<A>(s: Seq<A>, p: spec_fn(A) -> bool, i: int)
    requires
        0 <= i < s.len(),
        p(s[i]),
        forall|j: int| i < j < s.len() ==> !p(s[j]),
    ensures
        last_where(s, p) == Some(i),
{
    lemma_last_where(s, p);
}

/// Where no element has the property, neither search finds anything.
pub proof fn lemma_where_none<A>(s: Seq<A>, p: spec_fn(A) -> bool)
    requires
        forall|j: int| 0 <= j < s.len() ==> !p(s[j]),
    ensures
        first_where(s, p) is None,
        last_where(s, p) is None,
{
    lemma_first_where(s, p);
    lemma_last_where(s, p);
}

} // verus!
