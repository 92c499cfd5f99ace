//! The embedding catalog: per prompt target and embedding kind, one dense
//! description vector, in fixed-point millionths.
//!
//! The catalog is staged during startup, one entry per embedding reply, and
//! refuses a second entry for the same `(name, kind)` pair: a duplicate
//! betrays a configuration aliasing bug and is treated as fatal by the
//! caller. Once every configured target has its entry, the staging catalog
//! is published wholesale and never changes again.

use crate::common_types::EmbeddingType;
use crate::score::vector_in_range;
use vstd::prelude::*;

verus! {

/// One catalog entry: which target, which kind of text, and its vector.
pub struct CatalogEntry {
    pub name: String,
    pub embedding_type: EmbeddingType,
    pub embedding: Vec<i64>,
}

/// The vector stored under `(name, kind)`, if any.
pub open spec fn catalog_lookup(
    s: Seq<CatalogEntry>,
    name: Seq<char>,
    kind: EmbeddingType,
) -> Option<Seq<i64>>
    decreases s.len(),
{
    if s.len() == 0 {
        None
    } else if s[0].name@ == name && s[0].embedding_type == kind {
        Some(s[0].embedding@)
    } else {
        catalog_lookup(s.drop_first(), name, kind)
    }
}

/// No two entries share their `(name, kind)` pair.
pub open spec fn catalog_keys_unique(s: Seq<CatalogEntry>) -> bool {
    forall|i: int, j: int|
        0 <= i < j < s.len() ==> !((#[trigger] s[i]).name@ == (#[trigger] s[j]).name@
            && s[i].embedding_type == s[j].embedding_type)
}

/// Every stored vector is admitted by the similarity arithmetic.
pub open spec fn catalog_vectors_in_range(s: Seq<CatalogEntry>) -> bool {
    forall|i: int| 0 <= i < s.len() ==> vector_in_range((#[trigger] s[i]).embedding@)
}

/// A catalog under construction or published: a list of entries with unique
/// `(name, kind)` pairs.
pub struct EmbeddingCatalog {
    entries: Vec<CatalogEntry>,
}

impl EmbeddingCatalog {
    pub closed spec fn view(self) -> Seq<CatalogEntry> {
        self.entries@
    }

    pub open spec fn wf(self) -> bool {
        catalog_keys_unique(self@) && catalog_vectors_in_range(self@)
    }

    pub open spec fn spec_lookup(self, name: Seq<char>, kind: EmbeddingType) -> Option<Seq<i64>> {
        catalog_lookup(self@, name, kind)
    }

    pub open spec fn spec_contains(self, name: Seq<char>, kind: EmbeddingType) -> bool {
        self.spec_lookup(name, kind) is Some
    }

    pub fn new() -> (r: Self)
        ensures
            r.wf(),
            r@ === Seq::<CatalogEntry>::empty(),
    {
        EmbeddingCatalog { entries: Vec::new() }
    }

    pub fn len(&self) -> (r: usize)
        ensures
            r == self@.len(),
    {
        self.entries.len()
    }

    /// Stores a vector under `(name, kind)` unless that pair is already
    /// filled; a refused insertion reports the duplicate and changes nothing.
    pub fn insert(&mut self, name: String, kind: EmbeddingType, embedding: Vec<i64>) -> (fresh:
        bool)
        requires
            old(self).wf(),
            vector_in_range(embedding@),
        ensures
            final(self).wf(),
            fresh == !old(self).spec_contains(name@, kind),
            fresh ==> final(self)@.len() == old(self)@.len() + 1,
            fresh ==> final(self).spec_lookup(name@, kind) == Some(embedding@),
            fresh ==> final(self)@ === old(self)@.push(
                CatalogEntry { name, embedding_type: kind, embedding },
            ),
            !fresh ==> final(self)@ === old(self)@,
            forall|n2: Seq<char>, k2: EmbeddingType|
                !(n2 == name@ && k2 == kind) ==> final(self).spec_lookup(n2, k2) == old(
                    self,
                ).spec_lookup(n2, k2),
    {
        if self.contains(&name, kind) {
            return false;
        }
        let ghost s0 = self.entries@;
        let ghost gname = name@;
        let entry = CatalogEntry { name, embedding_type: kind, embedding };
        self.entries.push(entry);
        proof {
            let s1 = self.entries@;
            assert forall|i: int, j: int| 0 <= i < j < s1.len() implies !((#[trigger] s1[i]).name@
                == (#[trigger] s1[j]).name@ && s1[i].embedding_type == s1[j].embedding_type) by {
                if j == s1.len() - 1 {
                    assert(s1[i] == s0[i]);
                    if s1[i].name@ == gname && s1[i].embedding_type == kind {
                        lemma_catalog_found(s0, i, gname, kind);
                    }
                }
            }
            lemma_catalog_lookup_push(s0, s1[s1.len() - 1], gname, kind);
            assert forall|n2: Seq<char>, k2: EmbeddingType| !(n2 == gname && k2 == kind)
                implies catalog_lookup(s1, n2, k2) == catalog_lookup(s0, n2, k2) by {
                lemma_catalog_lookup_push(s0, s1[s1.len() - 1], n2, k2);
            }
        }
        true
    }

    pub fn contains(&self, name: &String, kind: EmbeddingType) -> (r: bool)
        ensures
            r == self.spec_contains(name@, kind),
    {
        let mut i: usize = 0;
        proof {
            assert(self.entries@.skip(0) =~= self.entries@);
        }
        while i < self.entries.len()
            invariant
                0 <= i <= self.entries@.len(),
                catalog_lookup(self.entries@.skip(i as int), name@, kind) == catalog_lookup(
                    self.entries@,
                    name@,
                    kind,
                ),
            decreases self.entries@.len() - i,
        {
            proof {
                assert(self.entries@.skip(i as int).drop_first() =~= self.entries@.skip(
                    i as int + 1,
                ));
            }
            if self.entries[i].name == *name && self.entries[i].embedding_type == kind {
                return true;
            }
            i = i + 1;
        }
        false
    }

    /// The stored vector under `(name, kind)`, if any.
    pub fn get(&self, name: &String, kind: EmbeddingType) -> (r: Option<&Vec<i64>>)
        ensures
            match r {
                Some(v) => self.spec_lookup(name@, kind) == Some(v@),
                None => self.spec_lookup(name@, kind) is None,
            },
    {
        let mut i: usize = 0;
        proof {
            assert(self.entries@.skip(0) =~= self.entries@);
        }
        while i < self.entries.len()
            invariant
                0 <= i <= self.entries@.len(),
                catalog_lookup(self.entries@.skip(i as int), name@, kind) == catalog_lookup(
                    self.entries@,
                    name@,
                    kind,
                ),
            decreases self.entries@.len() - i,
        {
            proof {
                assert(self.entries@.skip(i as int).drop_first() =~= self.entries@.skip(
                    i as int + 1,
                ));
            }
            if self.entries[i].name == *name && self.entries[i].embedding_type == kind {
                return Some(&self.entries[i].embedding);
            }
            i = i + 1;
        }
        None
    }

    /// The names of the held entries, in insertion order.
    pub open spec fn spec_names(self) -> Seq<Seq<char>> {
        self@.map(|i: int, e: CatalogEntry| e.name@)
    }

    /// A copy of the catalog with the same entries and the same lookups.
    pub fn duplicate(&self) -> (r: EmbeddingCatalog)
        requires
            self.wf(),
        ensures
            r.wf(),
            r@.len() == self@.len(),
            forall|i: int| 0 <= i < self@.len() ==> entry_like(#[trigger] self@[i], r@[i]),
            forall|n: Seq<char>, k: EmbeddingType|
                #[trigger] r.spec_lookup(n, k) == self.spec_lookup(n, k),
            r.spec_names() == self.spec_names(),
    {
        let mut out: Vec<CatalogEntry> = Vec::new();
        let mut i: usize = 0;
        while i < self.entries.len()
            invariant
                0 <= i <= self.entries@.len(),
                out@.len() == i,
                forall|j: int| 0 <= j < i ==> entry_like(#[trigger] self.entries@[j], out@[j]),
            decreases self.entries@.len() - i,
        {
            let e = &self.entries[i];
            let mut embedding: Vec<i64> = Vec::new();
            let mut k: usize = 0;
            while k < e.embedding.len()
                invariant
                    0 <= k <= e.embedding@.len(),
                    embedding@.len() == k,
                    forall|m: int| 0 <= m < k ==> #[trigger] embedding@[m] == e.embedding@[m],
                decreases e.embedding@.len() - k,
            {
                embedding.push(e.embedding[k]);
                k = k + 1;
            }
            proof {
                assert(embedding@ =~= e.embedding@);
            }
            let copy = CatalogEntry {
                name: e.name.clone(),
                embedding_type: e.embedding_type,
                embedding,
            };
            out.push(copy);
            i = i + 1;
        }
        let r = EmbeddingCatalog { entries: out };
        proof {
            assert forall|n: Seq<char>, k: EmbeddingType| #[trigger] catalog_lookup(r@, n, k)
                == catalog_lookup(self@, n, k) by {
                lemma_lookup_like(self@, r@, n, k);
            }
            assert forall|i: int, j: int| 0 <= i < j < r@.len() implies !((
            #[trigger] r@[i]).name@ == (#[trigger] r@[j]).name@ && r@[i].embedding_type
                == r@[j].embedding_type) by {
                assert(entry_like(self@[i], r@[i]));
                assert(entry_like(self@[j], r@[j]));
            }
            assert forall|i: int| 0 <= i < r@.len() implies vector_in_range(
                (#[trigger] r@[i]).embedding@,
            ) by {
                assert(entry_like(self@[i], r@[i]));
                assert(vector_in_range(self@[i].embedding@));
            }
            assert(r.spec_names() =~= self.spec_names());
        }
        r
    }
}

/// The same catalog entry, compared by content.
pub open spec fn entry_like(a: CatalogEntry, b: CatalogEntry) -> bool {
    &&& a.name@ == b.name@
    &&& a.embedding_type == b.embedding_type
    &&& a.embedding@ == b.embedding@
}

/// Content-equal catalogs agree on every lookup.
proof fn lemma_lookup_like(
    a: Seq<CatalogEntry>,
    b: Seq<CatalogEntry>,
    name: Seq<char>,
    kind: EmbeddingType,
)
    requires
        a.len() == b.len(),
        forall|i: int| 0 <= i < a.len() ==> entry_like(#[trigger] a[i], b[i]),
    ensures
        catalog_lookup(b, name, kind) == catalog_lookup(a, name, kind),
    decreases a.len(),
{
    if a.len() > 0 {
        assert(entry_like(a[0], b[0]));
        if !(a[0].name@ == name && a[0].embedding_type == kind) {
            assert forall|i: int| 0 <= i < a.drop_first().len() implies entry_like(
                (#[trigger] a.drop_first()[i]),
                b.drop_first()[i],
            ) by {
                assert(a.drop_first()[i] == a[i + 1]);
                assert(b.drop_first()[i] == b[i + 1]);
            }
            lemma_lookup_like(a.drop_first(), b.drop_first(), name, kind);
        }
    }
}

/// A found vector in a well-formed catalog is admitted by the similarity
/// arithmetic.
pub proof fn lemma_lookup_in_range(
    s: Seq<CatalogEntry>,
    name: Seq<char>,
    kind: EmbeddingType,
    v: Seq<i64>,
)
    requires
        catalog_vectors_in_range(s),
        catalog_lookup(s, name, kind) == Some(v),
    ensures
        vector_in_range(v),
    decreases s.len(),
{
    if s.len() > 0 {
        if s[0].name@ == name && s[0].embedding_type == kind {
        } else {
            assert forall|i: int|
                0 <= i < s.drop_first().len() implies vector_in_range(
                (#[trigger] s.drop_first()[i]).embedding@,
            ) by {
                assert(s.drop_first()[i] == s[i + 1]);
            }
            lemma_lookup_in_range(s.drop_first(), name, kind, v);
        }
    }
}

/// An entry with the looked-up pair pins the lookup to be found.
pub proof fn lemma_catalog_found(s: Seq<CatalogEntry>, i: int, name: Seq<char>, kind: EmbeddingType)
    requires
        0 <= i < s.len(),
        s[i].name@ == name,
        s[i].embedding_type == kind,
    ensures
        catalog_lookup(s, name, kind) is Some,
    decreases i,
{
    if i > 0 {
        if !(s[0].name@ == name && s[0].embedding_type == kind) {
            assert(s.drop_first()[i - 1] == s[i]);
            lemma_catalog_found(s.drop_first(), i - 1, name, kind);
        }
    }
}

/// Appending an entry only changes the lookup of pairs not yet found.
proof fn lemma_catalog_lookup_push(
    s: Seq<CatalogEntry>,
    e: CatalogEntry,
    name: Seq<char>,
    kind: EmbeddingType,
)
    ensures
        catalog_lookup(s.push(e), name, kind) == if catalog_lookup(s, name, kind) is Some {
            catalog_lookup(s, name, kind)
        } else if e.name@ == name && e.embedding_type == kind {
            Some(e.embedding@)
        } else {
            None
        },
    decreases s.len(),
{
    if s.len() == 0 {
        assert(s.push(e)[0] == e);
        assert(s.push(e).drop_first() =~= Seq::<CatalogEntry>::empty());
    } else {
        assert(s.push(e)[0] == s[0]);
        assert(s.push(e).drop_first() =~= s.drop_first().push(e));
        lemma_catalog_lookup_push(s.drop_first(), e, name, kind);
    }
}

} // verus!
