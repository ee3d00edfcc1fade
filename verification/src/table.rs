//! Tables with unique text keys, in the order in which the keys came.
use vstd::prelude::*;
use vstd::string::*;

use crate::text::same;

verus! {

/// The map that rows with unique keys stand for.
pub open spec fn row_map<V: View>(rows: Seq<(String, V)>) -> Map<Seq<char>, V::V>
    decreases rows.len(),
{
    if rows.len() == 0 {
        Map::empty()
    } else {
        row_map(rows.drop_last()).insert(rows.last().0@, rows.last().1@)
    }
}

/// Whether no key occurs twice.
pub open spec fn unique_keys<V>(rows: Seq<(String, V)>) -> bool {
    forall|i: int, j: int|
        0 <= i < j < rows.len() ==> (#[trigger] rows[i]).0@ != (#[trigger] rows[j]).0@
}

/// What the map of rows with unique keys holds.
proof fn lemma_row_map<V: View>(rows: Seq<(String, V)>)
    requires
        unique_keys(rows),
    ensures
        forall|i: int|
            0 <= i < rows.len() ==> row_map(rows).dom().contains((#[trigger] rows[i]).0@)
                && row_map(rows)[rows[i].0@] == rows[i].1@,
        forall|k: Seq<char>| #[trigger]
            row_map(rows).dom().contains(k) ==> exists|i: int|
                0 <= i < rows.len() && (#[trigger] rows[i]).0@ == k,
    decreases rows.len(),
{
    if rows.len() > 0 {
        let init = rows.drop_last();
        lemma_row_map(init);
        let m = row_map(rows);
        assert forall|i: int| 0 <= i < rows.len() implies m.dom().contains(
            (#[trigger] rows[i]).0@,
        ) && m[rows[i].0@] == rows[i].1@ by {
            if i < init.len() {
                assert(rows[i] == init[i]);
                assert(rows[i].0@ != rows[rows.len() - 1].0@);
            }
        }
        assert forall|k: Seq<char>| #[trigger] m.dom().contains(k) implies exists|i: int|
            0 <= i < rows.len() && (#[trigger] rows[i]).0@ == k by {
            if k == rows.last().0@ {
                assert(rows[rows.len() - 1].0@ == k);
            } else {
                assert(row_map(init).dom().contains(k));
                let i = choose|i: int| 0 <= i < init.len() && (#[trigger] init[i]).0@ == k;
                assert(rows[i].0@ == k);
            }
        }
    }
}

/// Two ways to read rows: a map that holds exactly the rows is their map.
proof fn lemma_same_map<V: View>(rows: Seq<(String, V)>, m: Map<Seq<char>, V::V>)
    requires
        unique_keys(rows),
        forall|i: int|
            0 <= i < rows.len() ==> m.dom().contains((#[trigger] rows[i]).0@) && m[rows[i].0@]
                == rows[i].1@,
        forall|k: Seq<char>| #[trigger]
            m.dom().contains(k) ==> exists|i: int|
                0 <= i < rows.len() && (#[trigger] rows[i]).0@ == k,
    ensures
        row_map(rows) == m,
{
    lemma_row_map(rows);
    let n = row_map(rows);
    assert forall|k: Seq<char>| n.dom().contains(k) <==> m.dom().contains(k) by {
        if n.dom().contains(k) {
            let i = choose|i: int| 0 <= i < rows.len() && (#[trigger] rows[i]).0@ == k;
            assert(m.dom().contains(rows[i].0@));
        }
        if m.dom().contains(k) {
            let i = choose|i: int| 0 <= i < rows.len() && (#[trigger] rows[i]).0@ == k;
            assert(n.dom().contains(rows[i].0@));
        }
    }
    assert forall|k: Seq<char>| n.dom().contains(k) implies n[k] == m[k] by {
        let i = choose|i: int| 0 <= i < rows.len() && (#[trigger] rows[i]).0@ == k;
        assert(m[rows[i].0@] == rows[i].1@);
    }
    assert(n =~= m);
}

/// A table with unique text keys.
#[derive(Debug)]
pub struct Table<V> {
    rows: Vec<(String, V)>,
}

impl<V: View> View for Table<V> {
    type V = Map<Seq<char>, V::V>;

    closed spec fn view(&self) -> Map<Seq<char>, V::V> {
        row_map(self.rows@)
    }
}

impl<V> Table<V> {
    #[verifier::type_invariant]
    spec fn inv(self) -> bool {
        unique_keys(self.rows@)
    }
}

impl<V: View> Table<V> {
    /// The rows, in the order in which their keys came.
    pub closed spec fn rows_view(&self) -> Seq<(String, V)> {
        self.rows@
    }

    /// A table without rows.
    pub fn new() -> (r: Table<V>)
        ensures
            r@ == Map::<Seq<char>, V::V>::empty(),
            r.rows_view().len() == 0,
    {
        Table { rows: Vec::new() }
    }

    /// The rows of a table say what its map holds.
    pub proof fn rows_are_the_map(self)
        requires
            unique_keys(self.rows_view()),
        ensures
            forall|i: int|
                0 <= i < self.rows_view().len() ==> self@.dom().contains(
                    (#[trigger] self.rows_view()[i]).0@,
                ) && self@[self.rows_view()[i].0@] == self.rows_view()[i].1@,
            forall|k: Seq<char>| #[trigger]
                self@.dom().contains(k) ==> exists|i: int|
                    0 <= i < self.rows_view().len() && (#[trigger] self.rows_view()[i]).0@ == k,
            self@ == row_map(self.rows_view()),
    {
        lemma_row_map(self.rows@);
    }

    /// The number of rows.
    pub fn len(&self) -> (r: usize)
        ensures
            r == self.rows_view().len(),
            unique_keys(self.rows_view()),
    {
        proof {
            use_type_invariant(&*self);
        }
        self.rows.len()
    }

    /// Whether there are no rows.
    pub fn is_empty(&self) -> (r: bool)
        ensures
            r == (self@ == Map::<Seq<char>, V::V>::empty()),
    {
        proof {
            use_type_invariant(&*self);
            lemma_row_map(self.rows@);
            if self.rows@.len() > 0 {
                assert(self@.dom().contains(self.rows@[0].0@));
            }
        }
        self.rows.len() == 0
    }

    /// The row at a position.
    pub fn row(&self, i: usize) -> (r: (&str, &V))
        requires
            i < self.rows_view().len(),
        ensures
            r.0@ == self.rows_view()[i as int].0@,
            *r.1 == self.rows_view()[i as int].1,
            unique_keys(self.rows_view()),
    {
        proof {
            use_type_invariant(&*self);
        }
        (self.rows[i].0.as_str(), &self.rows[i].1)
    }

    fn position(&self, key: &str) -> (r: Option<usize>)
        ensures
            match r {
                Some(i) => i < self.rows@.len() && self.rows@[i as int].0@ == key@,
                None => forall|i: int|
                    0 <= i < self.rows@.len() ==> (#[trigger] self.rows@[i]).0@ != key@,
            },
    {
        for i in 0..self.rows.len()
            invariant
                forall|j: int| 0 <= j < i ==> (#[trigger] self.rows@[j]).0@ != key@,
        {
            if same(self.rows[i].0.as_str(), key) {
                return Some(i);
            }
        }
        None
    }

    /// The value under a key.
    pub fn get(&self, key: &str) -> (r: Option<&V>)
        ensures
            match r {
                Some(v) => self@.dom().contains(key@) && v@ == self@[key@],
                None => !self@.dom().contains(key@),
            },
    {
        proof {
            use_type_invariant(&*self);
            lemma_row_map(self.rows@);
        }
        match self.position(key) {
            Some(i) => Some(&self.rows[i].1),
            None => None,
        }
    }

    /// Whether a key is there.
    pub fn contains_key(&self, key: &str) -> (r: bool)
        ensures
            r == self@.dom().contains(key@),
    {
        self.get(key).is_some()
    }

    /// Put a value under a key; a value that stood there is replaced and returned.
    pub fn insert(&mut self, key: String, value: V) -> (r: Option<V>)
        ensures
            final(self)@ == old(self)@.insert(key@, value@),
            match r {
                Some(v) => old(self)@.dom().contains(key@) && v@ == old(self)@[key@],
                None => !old(self)@.dom().contains(key@),
            },
    {
        proof {
            use_type_invariant(&*self);
            lemma_row_map(self.rows@);
        }
        let ghost before = self.rows@;
        let ghost m = row_map(before).insert(key@, value@);
        let at = self.position(key.as_str());
        let mut rows: Vec<(String, V)> = Vec::new();
        core::mem::swap(&mut self.rows, &mut rows);
        let replaced = match at {
            Some(i) => {
                let (_key, v) = rows.remove(i);
                rows.insert(i, (key, value));
                Some(v)
            },
            None => {
                rows.push((key, value));
                None
            },
        };
        proof {
            assert(rows@ =~= match at {
                Some(i) => before.update(i as int, (key, value)),
                None => before.push((key, value)),
            });
            assert forall|k: Seq<char>| #[trigger] m.dom().contains(k) implies exists|i: int|
                0 <= i < rows@.len() && (#[trigger] rows@[i]).0@ == k by {
                if k == key@ {
                    let i = match at {
                        Some(i) => i as int,
                        None => before.len() as int,
                    };
                    assert(rows@[i].0@ == k);
                } else {
                    assert(row_map(before).dom().contains(k));
                    let i = choose|i: int| 0 <= i < before.len() && (#[trigger] before[i]).0@ == k;
                    assert(rows@[i].0@ == k);
                }
            }
            lemma_same_map(rows@, m);
        }
        self.rows = rows;
        replaced
    }

    /// Take the value under a key out of the table.
    pub fn remove(&mut self, key: &str) -> (r: Option<V>)
        ensures
            final(self)@ == old(self)@.remove(key@),
            match r {
                Some(v) => old(self)@.dom().contains(key@) && v@ == old(self)@[key@],
                None => !old(self)@.dom().contains(key@),
            },
    {
        proof {
            use_type_invariant(&*self);
            lemma_row_map(self.rows@);
        }
        let ghost before = self.rows@;
        let ghost m = row_map(before).remove(key@);
        match self.position(key) {
            Some(i) => {
                let mut rows: Vec<(String, V)> = Vec::new();
                core::mem::swap(&mut self.rows, &mut rows);
                let (_key, v) = rows.remove(i);
                proof {
                    assert forall|j: int| 0 <= j < rows@.len() implies #[trigger] rows@[j]
                        == before[if j < i { j } else { j + 1 }] by {}
                    assert forall|k: Seq<char>| #[trigger] m.dom().contains(k) implies exists|j: int|
                        0 <= j < rows@.len() && (#[trigger] rows@[j]).0@ == k by {
                        assert(row_map(before).dom().contains(k));
                        let j = choose|j: int|
                            0 <= j < before.len() && (#[trigger] before[j]).0@ == k;
                        assert(j != i);
                        assert(rows@[if j < i { j } else { j - 1 }].0@ == k);
                    }
                    lemma_same_map(rows@, m);
                }
                self.rows = rows;
                Some(v)
            },
            None => {
                proof {
                    assert(m =~= row_map(before));
                }
                None
            },
        }
    }
}

} // verus!
