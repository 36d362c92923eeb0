use vstd::prelude::*;

verus! {

/// The position of `x` in `v`, if it occurs.
pub fn position_of(v: &Vec<u64>, x: u64) -> (r: Option<usize>)
    ensures
        match r {
            Some(i) => i < v@.len() && v@[i as int] == x && forall|j: int|
                0 <= j < i ==> v@[j] != x,
            None => !v@.contains(x),
        },
{
    let mut i: usize = 0;
    while i < v.len()
        invariant
            i <= v@.len(),
            forall|j: int| 0 <= j < i ==> v@[j] != x,
        decreases v@.len() - i,
    {
        if v[i] == x {
            return Some(i);
        }
        i = i + 1;
    }
    None
}

/// Whether `x` occurs in `v`.
pub fn contains(v: &Vec<u64>, x: u64) -> (r: bool)
    ensures
        r == v@.contains(x),
{
    match position_of(v, x) {
        Some(i) => {
            assert(v@[i as int] == x);
            true
        },
        None => false,
    }
}

/// Removing an element from a sequence without duplicates keeps it free of
/// duplicates and takes away exactly that element.
pub proof fn lemma_remove_no_dup(s: Seq<u64>, i: int)
    requires
        s.no_duplicates(),
        0 <= i < s.len(),
    ensures
        s.remove(i).no_duplicates(),
        s.remove(i).len() == s.len() - 1,
        forall|y: u64| s.remove(i).contains(y) <==> (s.contains(y) && y != s[i]),
{
    let r = s.remove(i);
    assert forall|y: u64| r.contains(y) implies (s.contains(y) && y != s[i]) by {
        let k = choose|k: int| 0 <= k < r.len() && r[k] == y;
        if k < i {
            assert(s[k] == y);
        } else {
            assert(s[k + 1] == y);
        }
    }
    assert forall|y: u64| (s.contains(y) && y != s[i]) implies r.contains(y) by {
        let k = choose|k: int| 0 <= k < s.len() && s[k] == y;
        if k < i {
            assert(r[k] == y);
        } else {
            assert(k != i);
            assert(r[k - 1] == y);
        }
    }
}

/// Pushing a fresh element onto a sequence without duplicates keeps it free of
/// duplicates.
pub proof fn lemma_push_no_dup(s: Seq<u64>, x: u64)
    requires
        s.no_duplicates(),
        !s.contains(x),
    ensures
        s.push(x).no_duplicates(),
        forall|y: u64| s.push(x).contains(y) <==> (s.contains(y) || y == x),
{
    let p = s.push(x);
    assert forall|i: int, j: int| 0 <= i < p.len() && 0 <= j < p.len() && i != j implies p[i]
        != p[j] by {
        if i < s.len() && j < s.len() {
            assert(p[i] == s[i] && p[j] == s[j]);
        } else if i < s.len() {
            assert(p[i] == s[i]);
        } else {
            assert(p[j] == s[j]);
        }
    }
    assert forall|y: u64| p.contains(y) implies (s.contains(y) || y == x) by {
        let k = choose|k: int| 0 <= k < p.len() && p[k] == y;
        if k < s.len() {
            assert(s[k] == y);
        }
    }
    assert forall|y: u64| (s.contains(y) || y == x) implies p.contains(y) by {
        if y == x {
            assert(p[s.len() as int] == y);
        } else {
            let k = choose|k: int| 0 <= k < s.len() && s[k] == y;
            assert(p[k] == y);
        }
    }
}

/// Removes `x` from `v`, which holds it exactly once.
pub fn remove_value(v: &mut Vec<u64>, x: u64)
    requires
        old(v)@.no_duplicates(),
        old(v)@.contains(x),
    ensures
        final(v)@.no_duplicates(),
        final(v)@.len() == old(v)@.len() - 1,
        forall|y: u64| final(v)@.contains(y) <==> (old(v)@.contains(y) && y != x),
        final(v)@ == old(v)@.remove(old(v)@.index_of(x)),
{
    let i = position_of(v, x).unwrap();
    proof {
        lemma_remove_no_dup(v@, i as int);
        let j = v@.index_of(x);
        assert(v@[i as int] == x);
        assert(0 <= j < v@.len() && v@[j] == x);
        assert(j == i as int);
    }
    v.remove(i);
}

/// Appends `x`, which `v` does not hold yet.
pub fn push_fresh(v: &mut Vec<u64>, x: u64)
    requires
        old(v)@.no_duplicates(),
        !old(v)@.contains(x),
    ensures
        final(v)@ == old(v)@.push(x),
        final(v)@.no_duplicates(),
        forall|y: u64| final(v)@.contains(y) <==> (old(v)@.contains(y) || y == x),
{
    proof {
        lemma_push_no_dup(v@, x);
    }
    v.push(x);
}

/// Makes `x` a member of `v` when `on` holds, else not a member.
pub fn set_member(v: &mut Vec<u64>, x: u64, on: bool)
    requires
        old(v)@.no_duplicates(),
    ensures
        final(v)@.no_duplicates(),
        forall|y: u64| #[trigger] final(v)@.contains(y) == if y == x {
            on
        } else {
            old(v)@.contains(y)
        },
{
    let present = contains(v, x);
    if on && !present {
        push_fresh(v, x);
    } else if !on && present {
        remove_value(v, x);
    }
}

} // verus!
