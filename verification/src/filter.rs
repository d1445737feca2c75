use vstd::prelude::*;
use vstd::string::StrSliceExecFns;

use crate::listing::DirectoryEntry;

verus! {

/// `q` occurs in `name` starting at position `i`.
pub open spec fn match_at(name: Seq<char>, q: Seq<char>, i: int) -> bool {
    &&& 0 <= i
    &&& i + q.len() <= name.len()
    &&& name.subrange(i, i + q.len()) == q
}

/// `q` is a literal substring of `name`.
pub open spec fn is_substring(name: Seq<char>, q: Seq<char>) -> bool {
    exists|i: int| match_at(name, q, i)
}

/// The filter predicate: an empty query accepts everything, otherwise the
/// query must occur in the name as a case-sensitive substring.
pub open spec fn spec_matches(name: Seq<char>, q: Seq<char>) -> bool {
    q.len() == 0 || is_substring(name, q)
}

/// An empty query is a substring of every name, so the two disjuncts of
/// `spec_matches` collapse: it accepts exactly the names with the query as
/// a substring.
pub proof fn lemma_empty_query_matches(name: Seq<char>)
    ensures
        spec_matches(name, Seq::<char>::empty()),
        is_substring(name, Seq::<char>::empty()),
{
    assert(name.subrange(0, 0) =~= Seq::<char>::empty());
    assert(match_at(name, Seq::<char>::empty(), 0));
}

/// Case-sensitive substring search by direct comparison at every
/// candidate position.
pub fn contains_query(name: &str, query: &str) -> (r: bool)
    ensures
        r == is_substring(name@, query@),
{
    let n = name.unicode_len();
    let m = query.unicode_len();
    if m == 0 {
        proof {
            assert(query@ =~= Seq::<char>::empty());
            lemma_empty_query_matches(name@);
        }
        return true;
    }
    if m > n {
        proof {
            assert forall|i: int| !match_at(name@, query@, i) by {}
        }
        return false;
    }
    let mut i: usize = 0;
    while i <= n - m
        invariant
            1 <= m <= n,
            n == name@.len(),
            m == query@.len(),
            i <= n - m + 1,
            forall|k: int| 0 <= k < i ==> !match_at(name@, query@, k),
        decreases n - m + 1 - i,
    {
        let mut j: usize = 0;
        let mut mismatch = false;
        while !mismatch && j < m
            invariant
                m <= n,
                i <= n - m,
                n == name@.len(),
                m == query@.len(),
                j <= m,
                !mismatch ==> forall|t: int| 0 <= t < j ==> name@[i + t] == query@[t],
                mismatch ==> !match_at(name@, query@, i as int),
            decreases m - j + (if mismatch { 0int } else { 1int }),
        {
            if name.get_char(i + j) != query.get_char(j) {
                proof {
                    if match_at(name@, query@, i as int) {
                        let sub = name@.subrange(i as int, i + query@.len());
                        assert(sub[j as int] == query@[j as int]);
                    }
                }
                mismatch = true;
            } else {
                j = j + 1;
            }
        }
        if !mismatch {
            proof {
                assert(name@.subrange(i as int, i + query@.len()) =~= query@);
                assert(match_at(name@, query@, i as int));
            }
            return true;
        }
        i = i + 1;
    }
    proof {
        assert forall|k: int| !match_at(name@, query@, k) by {
            if 0 <= k && k + query@.len() <= name@.len() {
                assert(k < i);
            }
        }
    }
    false
}

/// The filter of the listing: true when the query is empty or occurs in
/// the entry's name as a case-sensitive substring.
pub fn matches(entry: &DirectoryEntry, query: &str) -> (r: bool)
    ensures
        r == spec_matches(entry.name@, query@),
        query@.len() == 0 ==> r,
{
    if query.unicode_len() == 0 {
        true
    } else {
        contains_query(entry.name.as_str(), query)
    }
}

} // verus!
