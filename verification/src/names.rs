//! Spec-level helpers for sequences of peer names.
//!
//! The outstanding-acknowledgment sets of the synchronization engine are
//! sequences of peer names (`String`s) without duplicates. These functions
//! give the contracts of the engine a vocabulary for membership, uniqueness
//! and removal of a single name.

use vstd::prelude::*;

verus! {

/// Some element of `s` views to `n`.
pub open spec fn contains_name(s: Seq<String>, n: Seq<char>) -> bool {
    exists|i: int| 0 <= i < s.len() && s[i]@ == n
}

/// The names in `s` are pairwise distinct.
pub open spec fn unique_names(s: Seq<String>) -> bool {
    forall|i: int, j: int| 0 <= i < j < s.len() ==> s[i]@ != s[j]@
}

/// `s` with its first element viewing to `n` removed; `s` itself when no
/// element views to `n`.
pub open spec fn remove_name(s: Seq<String>, n: Seq<char>) -> Seq<String>
    decreases s.len(),
{
    if s.len() == 0 {
        s
    } else if s[0]@ == n {
        s.drop_first()
    } else {
        seq![s[0]] + remove_name(s.drop_first(), n)
    }
}

/// Removing an absent name changes nothing.
pub proof fn lemma_remove_name_absent(s: Seq<String>, n: Seq<char>)
    requires
        !contains_name(s, n),
    ensures
        remove_name(s, n) == s,
    decreases s.len(),
{
    if s.len() == 0 {
        assert(remove_name(s, n) =~= s);
    } else {
        assert(s[0]@ != n);
        assert(!contains_name(s.drop_first(), n)) by {
            if contains_name(s.drop_first(), n) {
                let i = choose|i: int| 0 <= i < s.drop_first().len() && s.drop_first()[i]@ == n;
                assert(s[i + 1]@ == n);
            }
        }
        lemma_remove_name_absent(s.drop_first(), n);
        assert(remove_name(s, n) =~= s);
    }
}

/// When the first occurrence of `n` in `s` is at index `i`, removing `n`
/// is removing that index.
pub proof fn lemma_remove_name_first_index(s: Seq<String>, n: Seq<char>, i: int)
    requires
        0 <= i < s.len(),
        s[i]@ == n,
        forall|j: int| 0 <= j < i ==> s[j]@ != n,
    ensures
        remove_name(s, n) == s.remove(i),
    decreases i,
{
    if i == 0 {
        assert(remove_name(s, n) =~= s.remove(0));
    } else {
        assert(s[0]@ != n);
        lemma_remove_name_first_index(s.drop_first(), n, i - 1);
        assert(remove_name(s, n) =~= s.remove(i));
    }
}

/// Removing a name present in a duplicate-free sequence shrinks it by one,
/// leaves the name absent, keeps every other name, and keeps uniqueness.
pub proof fn lemma_remove_name_present(s: Seq<String>, n: Seq<char>, i: int)
    requires
        unique_names(s),
        0 <= i < s.len(),
        s[i]@ == n,
    ensures
        remove_name(s, n) == s.remove(i),
        remove_name(s, n).len() == s.len() - 1,
        !contains_name(remove_name(s, n), n),
        forall|m: Seq<char>| m != n ==> (contains_name(remove_name(s, n), m) <==> contains_name(
            s,
            m,
        )),
        unique_names(remove_name(s, n)),
{
    assert(forall|j: int| 0 <= j < i ==> s[j]@ != n);
    lemma_remove_name_first_index(s, n, i);
    let r = s.remove(i);
    assert(!contains_name(r, n)) by {
        if contains_name(r, n) {
            let k = choose|k: int| 0 <= k < r.len() && r[k]@ == n;
            if k < i {
                assert(s[k]@ == n);
            } else {
                assert(s[k + 1]@ == n);
            }
        }
    }
    assert(forall|m: Seq<char>| m != n ==> (contains_name(r, m) <==> contains_name(s, m))) by {
        assert forall|m: Seq<char>| m != n implies (contains_name(r, m) <==> contains_name(
            s,
            m,
        )) by {
            if contains_name(r, m) {
                let k = choose|k: int| 0 <= k < r.len() && r[k]@ == m;
                if k < i {
                    assert(s[k]@ == m);
                } else {
                    assert(s[k + 1]@ == m);
                }
            }
            if contains_name(s, m) {
                let k = choose|k: int| 0 <= k < s.len() && s[k]@ == m;
                assert(k != i);
                if k < i {
                    assert(r[k]@ == m);
                } else {
                    assert(r[k - 1]@ == m);
                }
            }
        }
    }
    assert(unique_names(r)) by {
        assert forall|a: int, b: int| 0 <= a < b < r.len() implies r[a]@ != r[b]@ by {
            let sa: int = if a < i {
                a
            } else {
                a + 1
            };
            let sb: int = if b < i {
                b
            } else {
                b + 1
            };
            assert(r[a] == s[sa]);
            assert(r[b] == s[sb]);
        }
    }
}

/// Copy a list of names.
pub fn clone_names(v: &Vec<String>) -> (r: Vec<String>)
    ensures
        r@ == v@,
{
    let mut r: Vec<String> = Vec::new();
    let mut i: usize = 0;
    while i < v.len()
        invariant
            0 <= i <= v.len(),
            r@.len() == i,
            forall|j: int| 0 <= j < i ==> r@[j] == v@[j],
        decreases v.len() - i,
    {
        r.push(v[i].clone());
        i = i + 1;
    }
    proof {
        assert(r@ =~= v@);
    }
    r
}

/// Remove the first element of `v` viewing to `chain`, returning it.
/// Leaves `v` unchanged when no element matches.
pub fn remove_first_name(v: &mut Vec<String>, chain: &String) -> (r: Option<String>)
    ensures
        final(v)@ == remove_name(old(v)@, chain@),
        r is Some <==> contains_name(old(v)@, chain@),
        r matches Some(c) ==> c@ == chain@,
        r is None ==> final(v)@ == old(v)@,
        unique_names(old(v)@) ==> unique_names(final(v)@) && !contains_name(final(v)@, chain@),
{
    let mut i: usize = 0;
    let n = v.len();
    while i < n
        invariant
            0 <= i <= n,
            v@ == old(v)@,
            n == v@.len(),
            forall|j: int| 0 <= j < i ==> v@[j]@ != chain@,
        decreases n - i,
    {
        if v[i] == *chain {
            let removed = v.remove(i);
            proof {
                lemma_remove_name_first_index(old(v)@, chain@, i as int);
                if unique_names(old(v)@) {
                    lemma_remove_name_present(old(v)@, chain@, i as int);
                }
            }
            return Some(removed);
        }
        i = i + 1;
    }
    proof {
        assert(!contains_name(old(v)@, chain@));
        lemma_remove_name_absent(old(v)@, chain@);
    }
    None
}

/// Removal keeps a duplicate-free sequence duplicate-free.
pub proof fn lemma_remove_name_unique(s: Seq<String>, n: Seq<char>)
    requires
        unique_names(s),
    ensures
        unique_names(remove_name(s, n)),
{
    if contains_name(s, n) {
        let i = choose|i: int| 0 <= i < s.len() && s[i]@ == n;
        lemma_remove_name_present(s, n, i);
    } else {
        lemma_remove_name_absent(s, n);
    }
}

/// Removing the same name twice has the same effect as removing it once:
/// acknowledgment application is idempotent on a duplicate-free set.
pub proof fn lemma_remove_name_idempotent(s: Seq<String>, n: Seq<char>)
    requires
        unique_names(s),
    ensures
        remove_name(remove_name(s, n), n) == remove_name(s, n),
{
    if contains_name(s, n) {
        let i = choose|i: int| 0 <= i < s.len() && s[i]@ == n;
        lemma_remove_name_present(s, n, i);
        lemma_remove_name_absent(remove_name(s, n), n);
    } else {
        lemma_remove_name_absent(s, n);
        lemma_remove_name_absent(remove_name(s, n), n);
    }
}

} // verus!
