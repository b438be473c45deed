//! Prepared statements kept by statement text, so that each text is prepared
//! once and its handle reused.

use scylla::prepared_statement::PreparedStatement;
use vstd::prelude::*;

verus! {

#[verifier::external_type_specification]
#[verifier::external_body]
pub struct ExPreparedStatement(PreparedStatement);

/// The handles of a list of entries, by text.
pub open spec fn map_of(s: Seq<(String, PreparedStatement)>) -> Map<Seq<char>, PreparedStatement>
    decreases s.len(),
{
    if s.len() == 0 {
        Map::empty()
    } else {
        map_of(s.drop_last()).insert(s.last().0@, s.last().1)
    }
}

/// No two entries share a text.
pub open spec fn distinct_texts(s: Seq<(String, PreparedStatement)>) -> bool {
    forall|i: int, j: int| 0 <= i < j < s.len() ==> (#[trigger] s[i]).0@ != (#[trigger] s[j]).0@
}

proof fn lemma_map_of_index(s: Seq<(String, PreparedStatement)>, i: int)
    requires
        distinct_texts(s),
        0 <= i < s.len(),
    ensures
        map_of(s).contains_key(s[i].0@),
        map_of(s)[s[i].0@] == s[i].1,
    decreases s.len(),
{
    if i < s.len() - 1 {
        let t = s.drop_last();
        assert(t[i] == s[i]);
        assert(s[i].0@ != s[s.len() - 1].0@);
        assert(distinct_texts(t)) by {
            assert forall|a: int, b: int| 0 <= a < b < t.len() implies (#[trigger] t[a]).0@ != (#[trigger] t[b]).0@ by {
                assert(t[a] == s[a] && t[b] == s[b]);
            }
        }
        lemma_map_of_index(t, i);
    }
}

proof fn lemma_map_of_absent(s: Seq<(String, PreparedStatement)>, text: Seq<char>)
    requires
        forall|i: int| 0 <= i < s.len() ==> (#[trigger] s[i]).0@ != text,
    ensures
        !map_of(s).contains_key(text),
    decreases s.len(),
{
    if s.len() > 0 {
        let t = s.drop_last();
        assert forall|i: int| 0 <= i < t.len() implies (#[trigger] t[i]).0@ != text by {
            assert(t[i] == s[i]);
        }
        assert(s[s.len() - 1].0@ != text);
        lemma_map_of_absent(t, text);
    }
}

/// Prepared statements by statement text. An entry, once stored, is never
/// replaced.
pub struct PreparedCache {
    entries: Vec<(String, PreparedStatement)>,
}

impl PreparedCache {
    #[verifier::type_invariant]
    spec fn wf(&self) -> bool {
        distinct_texts(self.entries@)
    }

    /// The handles by statement text.
    pub closed spec fn spec_map(&self) -> Map<Seq<char>, PreparedStatement> {
        map_of(self.entries@)
    }

    /// An empty cache.
    pub fn new() -> (r: PreparedCache)
        ensures
            r.spec_map() == Map::<Seq<char>, PreparedStatement>::empty(),
    {
        PreparedCache { entries: Vec::new() }
    }

    fn find(&self, text: &String) -> (r: Option<usize>)
        ensures
            r matches Some(i) ==> i < self.entries@.len() && self.entries@[i as int].0@ == text@,
            r is None ==> forall|i: int|
                0 <= i < self.entries@.len() ==> (#[trigger] self.entries@[i]).0@ != text@,
    {
        let mut i: usize = 0;
        while i < self.entries.len()
            invariant
                i <= self.entries@.len(),
                forall|j: int| 0 <= j < i ==> (#[trigger] self.entries@[j]).0@ != text@,
            decreases self.entries@.len() - i,
        {
            if self.entries[i].0 == *text {
                return Some(i);
            }
            i = i + 1;
        }
        None
    }

    /// The handle prepared for `text`, if there is one.
    pub fn get(&self, text: &String) -> (r: Option<&PreparedStatement>)
        ensures
            r is Some <==> self.spec_map().contains_key(text@),
            r matches Some(p) ==> *p == self.spec_map()[text@],
    {
        proof {
            use_type_invariant(self);
        }
        match self.find(text) {
            Some(i) => {
                proof {
                    lemma_map_of_index(self.entries@, i as int);
                }
                Some(&self.entries[i].1)
            },
            None => {
                proof {
                    lemma_map_of_absent(self.entries@, text@);
                }
                None
            },
        }
    }

    /// Stores the handle prepared for `text`, unless one is stored already,
    /// which is then kept.
    pub fn insert(&mut self, text: String, p: PreparedStatement)
        ensures
            old(self).spec_map().contains_key(text@) ==> final(self).spec_map() == old(self).spec_map(),
            !old(self).spec_map().contains_key(text@) ==> final(self).spec_map() == old(self).spec_map().insert(
                text@,
                p,
            ),
    {
        proof {
            use_type_invariant(&*self);
        }
        match self.find(&text) {
            Some(i) => {
                proof {
                    lemma_map_of_index(self.entries@, i as int);
                }
            },
            None => {
                proof {
                    lemma_map_of_absent(self.entries@, text@);
                }
                let ghost before = self.entries@;
                let mut taken = PreparedCache { entries: Vec::new() };
                std::mem::swap(self, &mut taken);
                let PreparedCache { mut entries } = taken;
                entries.push((text, p));
                assert(entries@.drop_last() =~= before);
                *self = PreparedCache { entries };
            },
        }
    }
}

} // verus!
