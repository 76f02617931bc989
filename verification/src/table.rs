//! A small map with string keys, kept as a list of rows.
use vstd::prelude::*;

use crate::text;

verus! {

/// Rows with their keys as character sequences.
pub open spec fn keyed<T>(rows: Seq<(String, T)>) -> Seq<(Seq<char>, T)> {
    rows.map_values(|r: (String, T)| (r.0@, r.1))
}

/// The map that rows stand for: a later row replaces an earlier one of the same key.
pub open spec fn rows_map<T>(rows: Seq<(Seq<char>, T)>) -> Map<Seq<char>, T>
    decreases rows.len(),
{
    if rows.len() == 0 {
        Map::empty()
    } else {
        rows_map(rows.drop_last()).insert(rows.last().0, rows.last().1)
    }
}

/// Whether no key occurs twice.
pub open spec fn keys_distinct<T>(rows: Seq<(Seq<char>, T)>) -> bool {
    forall|i: int, j: int|
        0 <= i < j < rows.len() ==> (#[trigger] rows[i]).0 != (#[trigger] rows[j]).0
}

/// A map from strings to `T`.
pub struct Table<T> {
    rows: Vec<(String, T)>,
}

impl<T> View for Table<T> {
    type V = Map<Seq<char>, T>;

    open spec fn view(&self) -> Map<Seq<char>, T> {
        rows_map(self.listed())
    }
}

/// A key is in the map exactly if a row holds it.
pub proof fn lemma_rows_map_dom<T>(rows: Seq<(Seq<char>, T)>, key: Seq<char>)
    ensures
        rows_map(rows).contains_key(key) <==> exists|i: int|
            0 <= i < rows.len() && (#[trigger] rows[i]).0 == key,
    decreases rows.len(),
{
    if rows.len() > 0 {
        let front = rows.drop_last();
        lemma_rows_map_dom(front, key);
        if exists|i: int| 0 <= i < rows.len() && (#[trigger] rows[i]).0 == key {
            let i = choose|i: int| 0 <= i < rows.len() && (#[trigger] rows[i]).0 == key;
            if i < front.len() {
                assert(front[i].0 == key);
            }
        }
        if rows_map(front).contains_key(key) {
            let i = choose|i: int| 0 <= i < front.len() && (#[trigger] front[i]).0 == key;
            assert(rows[i].0 == key);
        }
        if rows.last().0 == key {
            assert(rows[rows.len() - 1].0 == key);
        }
    }
}

/// Where no key occurs twice, the map gives each row's value for its key.
pub proof fn lemma_rows_map_at<T>(rows: Seq<(Seq<char>, T)>, i: int)
    requires
        keys_distinct(rows),
        0 <= i < rows.len(),
    ensures
        rows_map(rows).contains_key(rows[i].0),
        rows_map(rows)[rows[i].0] == rows[i].1,
    decreases rows.len(),
{
    let front = rows.drop_last();
    if i < front.len() {
        assert(front[i] == rows[i]);
        lemma_rows_map_at(front, i);
        assert(rows[i].0 != rows[rows.len() - 1].0);
    }
}

/// Where no key occurs twice, the map has as many keys as there are rows.
pub proof fn lemma_rows_map_len<T>(rows: Seq<(Seq<char>, T)>)
    requires
        keys_distinct(rows),
    ensures
        rows_map(rows).dom().finite(),
        rows_map(rows).dom().len() == rows.len(),
    decreases rows.len(),
{
    if rows.len() > 0 {
        let front = rows.drop_last();
        let key = rows.last().0;
        lemma_rows_map_len(front);
        lemma_rows_map_dom(front, key);
        assert forall|i: int| 0 <= i < front.len() implies (#[trigger] front[i]).0 != key by {
            assert(rows[i].0 != rows[rows.len() - 1].0);
        }
        assert(rows_map(rows).dom() =~= rows_map(front).dom().insert(key));
    }
}

/// Replacing the value of one row replaces the value of its key.
proof fn lemma_rows_map_update<T>(rows: Seq<(Seq<char>, T)>, i: int, e: T)
    requires
        keys_distinct(rows),
        0 <= i < rows.len(),
    ensures
        rows_map(rows.update(i, (rows[i].0, e))) =~= rows_map(rows).insert(rows[i].0, e),
    decreases rows.len(),
{
    let front = rows.drop_last();
    let new = rows.update(i, (rows[i].0, e));
    if i < front.len() {
        lemma_rows_map_update(front, i, e);
        assert(new.drop_last() =~= front.update(i, (front[i].0, e)));
        assert(rows[i].0 != rows[rows.len() - 1].0);
    } else {
        assert(new.drop_last() =~= front);
    }
}

/// Taking a row out takes its key out.
proof fn lemma_rows_map_remove<T>(rows: Seq<(Seq<char>, T)>, i: int)
    requires
        keys_distinct(rows),
        0 <= i < rows.len(),
    ensures
        rows_map(rows.remove(i)) =~= rows_map(rows).remove(rows[i].0),
        keys_distinct(rows.remove(i)),
    decreases rows.len(),
{
    let front = rows.drop_last();
    if i < front.len() {
        lemma_rows_map_remove(front, i);
        assert(rows.remove(i).drop_last() =~= front.remove(i));
        assert(rows.remove(i).last() == rows.last());
        assert(rows[i].0 != rows[rows.len() - 1].0);
        assert(front[i] == rows[i]);
    } else {
        assert(rows.remove(i) =~= front);
        lemma_rows_map_dom(front, rows[i].0);
        assert forall|k: int| 0 <= k < front.len() implies front[k].0 != rows[i].0 by {
            assert(rows[k].0 != rows[i].0);
        }
    }
}

impl<T> Table<T> {
    /// The rows in the order in which they are stored.
    pub closed spec fn listed(&self) -> Seq<(Seq<char>, T)> {
        keyed(self.rows@)
    }

    /// The invariant: no key occurs twice.
    pub open spec fn wf(&self) -> bool {
        keys_distinct(self.listed())
    }

    /// A table without rows.
    pub fn new() -> (r: Table<T>)
        ensures
            r.wf(),
            r@ == Map::<Seq<char>, T>::empty(),
            r.listed() == Seq::<(Seq<char>, T)>::empty(),
    {
        let r: Table<T> = Table { rows: Vec::new() };
        assert(r.listed() =~= Seq::empty());
        r
    }

    /// The position of `key`, or the number of rows where it is not there.
    fn position(&self, key: &str) -> (r: usize)
        requires
            self.wf(),
        ensures
            r <= self.rows@.len(),
            r < self.rows@.len() ==> self.rows@[r as int].0@ == key@ && self@.contains_key(key@)
                && self@[key@] == self.rows@[r as int].1,
            r == self.rows@.len() ==> !self@.contains_key(key@),
    {
        let mut i: usize = 0;
        while i < self.rows.len()
            invariant
                i <= self.rows@.len(),
                self.wf(),
                forall|j: int| 0 <= j < i ==> self.rows@[j].0@ != key@,
            decreases self.rows@.len() - i,
        {
            if text::same(self.rows[i].0.as_str(), key) {
                proof {
                    lemma_rows_map_at(self.listed(), i as int);
                }
                return i;
            }
            i = i + 1;
        }
        proof {
            lemma_rows_map_dom(self.listed(), key@);
            assert forall|j: int| 0 <= j < self.listed().len() implies (
            #[trigger] self.listed()[j]).0 != key@ by {
                assert(self.listed()[j].0 == self.rows@[j].0@);
            }
        }
        i
    }

    /// Whether there is a row for `key`.
    pub fn contains_key(&self, key: &str) -> (r: bool)
        requires
            self.wf(),
        ensures
            r == self@.contains_key(key@),
    {
        self.position(key) < self.rows.len()
    }

    /// The value of `key`.
    pub fn get(&self, key: &str) -> (r: Option<&T>)
        requires
            self.wf(),
        ensures
            match r {
                Some(e) => self@.contains_key(key@) && self@[key@] == *e,
                None => !self@.contains_key(key@),
            },
    {
        let i: usize = self.position(key);
        if i < self.rows.len() {
            Some(&self.rows[i].1)
        } else {
            None
        }
    }

    /// Puts `value` under `key`, in place of what was there.
    pub fn insert(&mut self, key: String, value: T)
        requires
            old(self).wf(),
        ensures
            final(self).wf(),
            final(self)@ == old(self)@.insert(key@, value),
    {
        let i: usize = self.position(key.as_str());
        let ghost before = self.listed();
        let ghost k = key@;
        let ghost e = value;
        if i < self.rows.len() {
            proof {
                lemma_rows_map_update(before, i as int, value);
            }
            self.rows.set(i, (key, value));
            assert(self.listed() =~= before.update(i as int, (before[i as int].0, e)));
        } else {
            proof {
                lemma_rows_map_dom(before, key@);
            }
            self.rows.push((key, value));
            assert(self.listed() =~= before.push((k, e)));
            assert(self.listed().drop_last() =~= before);
            assert forall|a: int, b: int| 0 <= a < b < self.listed().len() implies (
            #[trigger] self.listed()[a]).0 != (#[trigger] self.listed()[b]).0 by {
                assert(self.listed()[a] == before[a]);
                if b < before.len() {
                    assert(self.listed()[b] == before[b]);
                }
            }
        }
    }

    /// Takes `key` out and hands back what was there.
    pub fn remove(&mut self, key: &str) -> (r: Option<T>)
        requires
            old(self).wf(),
        ensures
            final(self).wf(),
            final(self)@ == old(self)@.remove(key@),
            r == (if old(self)@.contains_key(key@) {
                Some(old(self)@[key@])
            } else {
                None
            }),
    {
        let i: usize = self.position(key);
        let ghost before = self.listed();
        if i < self.rows.len() {
            proof {
                lemma_rows_map_remove(before, i as int);
            }
            let row = self.rows.remove(i);
            assert(self.listed() =~= before.remove(i as int));
            Some(row.1)
        } else {
            assert(self@ =~= old(self)@.remove(key@));
            None
        }
    }

    /// The rows.
    pub fn rows(&self) -> (r: &Vec<(String, T)>)
        ensures
            keyed(r@) == self.listed(),
    {
        &self.rows
    }
}

/// A row puts its value under its key, in place of what was there, and touches no other key.
pub proof fn law_later_row_replaces<T>(rows: Seq<(Seq<char>, T)>, key: Seq<char>, value: T)
    ensures
        rows_map(rows.push((key, value))) == rows_map(rows).insert(key, value),
        rows_map(Seq::<(Seq<char>, T)>::empty()) == Map::<Seq<char>, T>::empty(),
{
    assert(rows.push((key, value)).drop_last() =~= rows);
}

/// Models keep what they model: keys and values of rows, in their order.
pub proof fn law_models<T>(rows: Seq<(String, T)>)
    ensures
        keyed(rows).len() == rows.len(),
        forall|i: int| 0 <= i < rows.len() ==> #[trigger] keyed(rows)[i] == (rows[i].0@, rows[i].1),
{
}

} // verus!
