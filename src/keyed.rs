//! Records kept in a sequence with unique keys, and lookups by key.
use vstd::prelude::*;
use crate::types::BusinessView;

verus! {

/// Whether no two businesses in `s` share a name.
pub open spec fn names_unique(s: Seq<BusinessView>) -> bool {
    forall|i: int, j: int|
        0 <= i < s.len() && 0 <= j < s.len() && i != j ==> (#[trigger] s[i]).name != (#[trigger] s[j]).name
}

/// The business named `name` in `s`, if there is one.
pub open spec fn business_in(s: Seq<BusinessView>, name: Seq<char>) -> Option<BusinessView> {
    if exists|i: int| 0 <= i < s.len() && (#[trigger] s[i]).name == name {
        Some(s[choose|i: int| 0 <= i < s.len() && (#[trigger] s[i]).name == name])
    } else {
        None
    }
}

/// Whether no two entries in `s` share a key.
pub open spec fn keys_unique<V>(s: Seq<(Seq<char>, V)>) -> bool {
    forall|i: int, j: int| 0 <= i < s.len() && 0 <= j < s.len() && i != j ==> (#[trigger] s[i]).0 != (#[trigger] s[j]).0
}

/// The value under `key` in `s`, if there is one.
pub open spec fn value_in<V>(s: Seq<(Seq<char>, V)>, key: Seq<char>) -> Option<V> {
    if exists|i: int| 0 <= i < s.len() && (#[trigger] s[i]).0 == key {
        Some(s[choose|i: int| 0 <= i < s.len() && (#[trigger] s[i]).0 == key].1)
    } else {
        None
    }
}

pub proof fn lemma_business_at(s: Seq<BusinessView>, i: int)
    requires
        names_unique(s),
        0 <= i < s.len(),
    ensures
        business_in(s, s[i].name) == Some(s[i]),
{
    assert(s[i].name == s[i].name);
}

pub proof fn lemma_business_absent(s: Seq<BusinessView>, name: Seq<char>)
    requires
        forall|i: int| 0 <= i < s.len() ==> (#[trigger] s[i]).name != name,
    ensures
        business_in(s, name) is None,
{
}

pub proof fn lemma_business_update(s: Seq<BusinessView>, i: int, b: BusinessView)
    requires
        names_unique(s),
        0 <= i < s.len(),
        s[i].name == b.name,
    ensures
        names_unique(s.update(i, b)),
        forall|n: Seq<char>|
            #[trigger] business_in(s.update(i, b), n) == if n == b.name {
                Some(b)
            } else {
                business_in(s, n)
            },
{
    let t = s.update(i, b);
    assert(names_unique(t)) by {
        assert forall|j: int, k: int| 0 <= j < t.len() && 0 <= k < t.len() && j != k implies (
        #[trigger] t[j]).name != (#[trigger] t[k]).name by {
            assert(s[j].name != s[k].name);
        }
    }
    assert forall|n: Seq<char>|
        #[trigger] business_in(t, n) == if n == b.name {
            Some(b)
        } else {
            business_in(s, n)
        } by {
        if n == b.name {
            lemma_business_at(t, i);
        } else if exists|k: int| 0 <= k < s.len() && (#[trigger] s[k]).name == n {
            let k = choose|k: int| 0 <= k < s.len() && (#[trigger] s[k]).name == n;
            lemma_business_at(s, k);
            lemma_business_at(t, k);
        } else {
            assert forall|k: int| 0 <= k < t.len() implies (#[trigger] t[k]).name != n by {
                if k != i {
                    assert(s[k].name != n);
                }
            }
        }
    }
}

pub proof fn lemma_business_push(s: Seq<BusinessView>, b: BusinessView)
    requires
        names_unique(s),
        business_in(s, b.name) is None,
    ensures
        names_unique(s.push(b)),
        forall|n: Seq<char>|
            #[trigger] business_in(s.push(b), n) == if n == b.name {
                Some(b)
            } else {
                business_in(s, n)
            },
{
    let t = s.push(b);
    assert forall|k: int| 0 <= k < s.len() implies (#[trigger] s[k]).name != b.name by {
        if s[k].name == b.name {
            assert(exists|j: int| 0 <= j < s.len() && (#[trigger] s[j]).name == b.name);
        }
    }
    assert(names_unique(t)) by {
        assert forall|j: int, k: int| 0 <= j < t.len() && 0 <= k < t.len() && j != k implies (
        #[trigger] t[j]).name != (#[trigger] t[k]).name by {
            if j < s.len() && k < s.len() {
                assert(s[j].name != s[k].name);
            } else if j < s.len() {
                assert(s[j].name != b.name);
            } else {
                assert(s[k].name != b.name);
            }
        }
    }
    assert forall|n: Seq<char>|
        #[trigger] business_in(t, n) == if n == b.name {
            Some(b)
        } else {
            business_in(s, n)
        } by {
        if n == b.name {
            lemma_business_at(t, s.len() as int);
        } else if exists|k: int| 0 <= k < s.len() && (#[trigger] s[k]).name == n {
            let k = choose|k: int| 0 <= k < s.len() && (#[trigger] s[k]).name == n;
            lemma_business_at(s, k);
            lemma_business_at(t, k);
        } else {
            assert forall|k: int| 0 <= k < t.len() implies (#[trigger] t[k]).name != n by {
                if k < s.len() {
                    assert(s[k].name != n);
                }
            }
        }
    }
}

pub proof fn lemma_entry_at<V>(s: Seq<(Seq<char>, V)>, i: int)
    requires
        keys_unique(s),
        0 <= i < s.len(),
    ensures
        value_in(s, s[i].0) == Some(s[i].1),
{
    assert(s[i].0 == s[i].0);
}

pub proof fn lemma_entry_absent<V>(s: Seq<(Seq<char>, V)>, key: Seq<char>)
    requires
        forall|i: int| 0 <= i < s.len() ==> (#[trigger] s[i]).0 != key,
    ensures
        value_in(s, key) is None,
{
}

pub proof fn lemma_entry_update<V>(s: Seq<(Seq<char>, V)>, i: int, e: (Seq<char>, V))
    requires
        keys_unique(s),
        0 <= i < s.len(),
        s[i].0 == e.0,
    ensures
        keys_unique(s.update(i, e)),
        forall|p: Seq<char>|
            #[trigger] value_in(s.update(i, e), p) == if p == e.0 {
                Some(e.1)
            } else {
                value_in(s, p)
            },
{
    let t = s.update(i, e);
    assert(keys_unique(t)) by {
        assert forall|j: int, k: int| 0 <= j < t.len() && 0 <= k < t.len() && j != k implies (
        #[trigger] t[j]).0 != (#[trigger] t[k]).0 by {
            assert(s[j].0 != s[k].0);
        }
    }
    assert forall|p: Seq<char>|
        #[trigger] value_in(t, p) == if p == e.0 {
            Some(e.1)
        } else {
            value_in(s, p)
        } by {
        if p == e.0 {
            lemma_entry_at(t, i);
        } else if exists|k: int| 0 <= k < s.len() && (#[trigger] s[k]).0 == p {
            let k = choose|k: int| 0 <= k < s.len() && (#[trigger] s[k]).0 == p;
            lemma_entry_at(s, k);
            lemma_entry_at(t, k);
        } else {
            assert forall|k: int| 0 <= k < t.len() implies (#[trigger] t[k]).0 != p by {
                if k != i {
                    assert(s[k].0 != p);
                }
            }
        }
    }
}

pub proof fn lemma_entry_push<V>(s: Seq<(Seq<char>, V)>, e: (Seq<char>, V))
    requires
        keys_unique(s),
        value_in(s, e.0) is None,
    ensures
        keys_unique(s.push(e)),
        forall|p: Seq<char>|
            #[trigger] value_in(s.push(e), p) == if p == e.0 {
                Some(e.1)
            } else {
                value_in(s, p)
            },
{
    let t = s.push(e);
    assert forall|k: int| 0 <= k < s.len() implies (#[trigger] s[k]).0 != e.0 by {
        if s[k].0 == e.0 {
            assert(exists|j: int| 0 <= j < s.len() && (#[trigger] s[j]).0 == e.0);
        }
    }
    assert(keys_unique(t)) by {
        assert forall|j: int, k: int| 0 <= j < t.len() && 0 <= k < t.len() && j != k implies (
        #[trigger] t[j]).0 != (#[trigger] t[k]).0 by {
            if j < s.len() && k < s.len() {
                assert(s[j].0 != s[k].0);
            } else if j < s.len() {
                assert(s[j].0 != e.0);
            } else {
                assert(s[k].0 != e.0);
            }
        }
    }
    assert forall|p: Seq<char>|
        #[trigger] value_in(t, p) == if p == e.0 {
            Some(e.1)
        } else {
            value_in(s, p)
        } by {
        if p == e.0 {
            lemma_entry_at(t, s.len() as int);
        } else if exists|k: int| 0 <= k < s.len() && (#[trigger] s[k]).0 == p {
            let k = choose|k: int| 0 <= k < s.len() && (#[trigger] s[k]).0 == p;
            lemma_entry_at(s, k);
            lemma_entry_at(t, k);
        } else {
            assert forall|k: int| 0 <= k < t.len() implies (#[trigger] t[k]).0 != p by {
                if k < s.len() {
                    assert(s[k].0 != p);
                }
            }
        }
    }
}

} // verus!
