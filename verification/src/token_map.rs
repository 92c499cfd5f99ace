//! The per-context map from outbound-call token ids to their call contexts.
//!
//! The host mints one opaque token per outbound call; its reply is matched
//! back by that token. Every held token is unique; inserting a token twice
//! is refused so the caller can treat it as the program bug it is.

use vstd::prelude::*;

verus! {

/// No two entries share a key.
pub open spec fn keys_unique<V>(s: Seq<(u32, V)>) -> bool {
    forall|i: int, j: int| 0 <= i < j < s.len() ==> (#[trigger] s[i]).0 != (#[trigger] s[j]).0
}

/// Whether some entry has the key.
pub open spec fn contains_key<V>(s: Seq<(u32, V)>, key: u32) -> bool {
    exists|i: int| 0 <= i < s.len() && (#[trigger] s[i]).0 == key
}

/// The value stored under the key, if any.
pub open spec fn value_of<V>(s: Seq<(u32, V)>, key: u32) -> Option<V> {
    if contains_key(s, key) {
        let i = choose|i: int| 0 <= i < s.len() && (#[trigger] s[i]).0 == key;
        Some(s[i].1)
    } else {
        None
    }
}

/// With unique keys, any entry holding the key holds the stored value.
proof fn lemma_value_at<V>(s: Seq<(u32, V)>, key: u32, i: int)
    requires
        keys_unique(s),
        0 <= i < s.len(),
        s[i].0 == key,
    ensures
        value_of(s, key) == Some(s[i].1),
{
    let j = choose|j: int| 0 <= j < s.len() && (#[trigger] s[j]).0 == key;
    if i != j {
        assert(s[i].0 != s[j].0);
    }
}

/// A map from host call tokens to call contexts, with unique tokens.
pub struct TokenMap<V> {
    entries: Vec<(u32, V)>,
}

impl<V> TokenMap<V> {
    pub closed spec fn view(self) -> Seq<(u32, V)> {
        self.entries@
    }

    /// Well-formed: every held token is unique.
    pub open spec fn wf(self) -> bool {
        keys_unique(self@)
    }

    pub open spec fn spec_contains(self, key: u32) -> bool {
        contains_key(self@, key)
    }

    pub open spec fn spec_get(self, key: u32) -> Option<V> {
        value_of(self@, key)
    }

    pub fn new() -> (r: Self)
        ensures
            r.wf(),
            r@ === Seq::<(u32, V)>::empty(),
    {
        TokenMap { entries: Vec::new() }
    }

    pub fn len(&self) -> (r: usize)
        ensures
            r == self@.len(),
    {
        self.entries.len()
    }

    pub fn contains(&self, key: u32) -> (r: bool)
        ensures
            r == self.spec_contains(key),
    {
        let mut i: usize = 0;
        while i < self.entries.len()
            invariant
                0 <= i <= self.entries@.len(),
                forall|j: int| 0 <= j < i ==> (#[trigger] self.entries@[j]).0 != key,
            decreases self.entries@.len() - i,
        {
            if self.entries[i].0 == key {
                return true;
            }
            i = i + 1;
        }
        false
    }

    /// Stores the value under the token unless the token is already held;
    /// a refused insertion reports the duplicate and changes nothing.
    pub fn insert(&mut self, key: u32, value: V) -> (fresh: bool)
        requires
            old(self).wf(),
        ensures
            final(self).wf(),
            fresh == !old(self).spec_contains(key),
            fresh ==> final(self)@ === old(self)@.push((key, value)),
            fresh ==> final(self).spec_get(key) == Some(value),
            !fresh ==> final(self)@ === old(self)@,
            forall|k2: u32|
                k2 != key ==> final(self).spec_get(k2) == old(self).spec_get(k2),
    {
        if self.contains(key) {
            return false;
        }
        let ghost s0 = self.entries@;
        self.entries.push((key, value));
        proof {
            let s1 = self.entries@;
            assert forall|i: int, j: int| 0 <= i < j < s1.len() implies (#[trigger] s1[i]).0
                != (#[trigger] s1[j]).0 by {
                if j == s1.len() - 1 {
                    assert(s1[i] == s0[i]);
                }
            }
            lemma_value_at(s1, key, s1.len() - 1);
            assert forall|k2: u32| k2 != key implies value_of(s1, k2) == value_of(s0, k2) by {
                lemma_frame_push(s0, key, value, k2);
            }
        }
        true
    }

    /// The value held under the token, if any.
    pub fn get_ref(&self, key: u32) -> (r: Option<&V>)
        requires
            self.wf(),
        ensures
            match r {
                Some(v) => self.spec_get(key) == Some(*v),
                None => self.spec_get(key) is None,
            },
    {
        let mut i: usize = 0;
        while i < self.entries.len()
            invariant
                0 <= i <= self.entries@.len(),
                self.wf(),
                forall|j: int| 0 <= j < i ==> (#[trigger] self.entries@[j]).0 != key,
            decreases self.entries@.len() - i,
        {
            if self.entries[i].0 == key {
                proof {
                    lemma_value_at(self@, key, i as int);
                }
                return Some(&self.entries[i].1);
            }
            i = i + 1;
        }
        proof {
            if contains_key(self@, key) {
                let j = choose|j: int| 0 <= j < self@.len() && (#[trigger] self@[j]).0 == key;
                assert(self@[j].0 != key);
            }
        }
        None
    }

    /// Surrenders and returns the value held under the token, if any.
    pub fn remove(&mut self, key: u32) -> (r: Option<V>)
        requires
            old(self).wf(),
        ensures
            final(self).wf(),
            r == old(self).spec_get(key),
            !final(self).spec_contains(key),
            forall|k2: u32|
                k2 != key ==> final(self).spec_get(k2) == old(self).spec_get(k2),
            old(self).spec_contains(key) ==> final(self)@.len() == old(self)@.len() - 1,
            !old(self).spec_contains(key) ==> final(self)@ === old(self)@,
            forall|j: int|
                0 <= j < final(self)@.len() ==> old(self)@.contains(#[trigger] final(self)@[j]),
    {
        let ghost s0 = self.entries@;
        let mut i: usize = 0;
        while i < self.entries.len()
            invariant
                0 <= i <= self.entries@.len(),
                self.entries@ === s0,
                s0 === old(self)@,
                keys_unique(s0),
                forall|j: int| 0 <= j < i ==> (#[trigger] s0[j]).0 != key,
            decreases self.entries@.len() - i,
        {
            if self.entries[i].0 == key {
                proof {
                    lemma_value_at(s0, key, i as int);
                }
                let v = self.entries.remove(i);
                proof {
                    lemma_remove_at(s0, i as int);
                }
                return Some(v.1);
            }
            i = i + 1;
        }
        None
    }
}

/// Pushing a fresh key leaves every other key's value unchanged.
proof fn lemma_frame_push<V>(s: Seq<(u32, V)>, key: u32, value: V, k2: u32)
    requires
        keys_unique(s),
        !contains_key(s, key),
        k2 != key,
    ensures
        value_of(s.push((key, value)), k2) == value_of(s, k2),
{
    let s1 = s.push((key, value));
    assert(keys_unique(s1)) by {
        assert forall|i: int, j: int| 0 <= i < j < s1.len() implies (#[trigger] s1[i]).0
            != (#[trigger] s1[j]).0 by {
            if j == s1.len() - 1 {
                assert(s1[i] == s[i]);
            }
        }
    }
    if contains_key(s, k2) {
        let i = choose|i: int| 0 <= i < s.len() && (#[trigger] s[i]).0 == k2;
        assert(s1[i] == s[i]);
        lemma_value_at(s, k2, i);
        lemma_value_at(s1, k2, i);
    } else {
        if contains_key(s1, k2) {
            let i = choose|i: int| 0 <= i < s1.len() && (#[trigger] s1[i]).0 == k2;
            assert(i < s.len() ==> s[i].0 == k2);
        }
    }
}

/// Removing the entry at one index keeps the map well-formed, drops its key
/// and leaves every other key's value unchanged.
proof fn lemma_remove_at<V>(s: Seq<(u32, V)>, at: int)
    requires
        keys_unique(s),
        0 <= at < s.len(),
    ensures
        keys_unique(s.remove(at)),
        !contains_key(s.remove(at), s[at].0),
        forall|k2: u32|
            k2 != s[at].0 ==> value_of(s.remove(at), k2) == value_of(s, k2),
        forall|j: int| 0 <= j < s.remove(at).len() ==> s.contains(#[trigger] s.remove(at)[j]),
{
    let key = s[at].0;
    let s1 = s.remove(at);
    assert forall|i: int, j: int| 0 <= i < j < s1.len() implies (#[trigger] s1[i]).0
        != (#[trigger] s1[j]).0 by {
        let i0 = if i < at { i } else { i + 1 };
        let j0 = if j < at { j } else { j + 1 };
        assert(s1[i] == s[i0]);
        assert(s1[j] == s[j0]);
    }
    assert forall|i: int| 0 <= i < s1.len() implies (#[trigger] s1[i]).0 != key by {
        let i0 = if i < at { i } else { i + 1 };
        assert(s1[i] == s[i0]);
        assert(s[i0].0 != s[at].0);
    }
    assert forall|j: int| 0 <= j < s1.len() implies s.contains(#[trigger] s1[j]) by {
        let j0 = if j < at { j } else { j + 1 };
        assert(s1[j] == s[j0]);
    }
    assert forall|k2: u32| k2 != key implies value_of(s1, k2) == value_of(s, k2) by {
        if contains_key(s, k2) {
            let i = choose|i: int| 0 <= i < s.len() && (#[trigger] s[i]).0 == k2;
            lemma_value_at(s, k2, i);
            let i1 = if i < at { i } else { i - 1 };
            assert(s1[i1] == s[i]);
            lemma_value_at(s1, k2, i1);
        } else {
            if contains_key(s1, k2) {
                let i = choose|i: int| 0 <= i < s1.len() && (#[trigger] s1[i]).0 == k2;
                let i0 = if i < at { i } else { i + 1 };
                assert(s1[i] == s[i0]);
            }
        }
    }
}

} // verus!
