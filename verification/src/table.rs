//! Records stored in the order of their keys.
use crate::order::{
    is_text_before, lemma_bytes_irreflexive, lemma_bytes_total, lemma_bytes_transitive,
    lemma_same_bytes, text_before,
};
use vstd::prelude::*;
use vstd::utf8::encode_utf8;

verus! {

/// What records can be stored under: something with a strict total order.
pub trait Key: View + Sized {
    spec fn before(left: Self::V, right: Self::V) -> bool;

    proof fn lemma_irreflexive(key: Self::V)
        ensures
            !Self::before(key, key),
    ;

    proof fn lemma_transitive(a: Self::V, b: Self::V, c: Self::V)
        requires
            Self::before(a, b),
            Self::before(b, c),
        ensures
            Self::before(a, c),
    ;

    proof fn lemma_total(a: Self::V, b: Self::V)
        ensures
            a == b || Self::before(a, b) || Self::before(b, a),
    ;

    fn is_before(&self, other: &Self) -> (before: bool)
        ensures
            before == Self::before(self@, other@),
    ;
}

impl Key for u64 {
    open spec fn before(left: u64, right: u64) -> bool {
        left < right
    }

    proof fn lemma_irreflexive(key: u64) {
    }

    proof fn lemma_transitive(a: u64, b: u64, c: u64) {
    }

    proof fn lemma_total(a: u64, b: u64) {
    }

    fn is_before(&self, other: &u64) -> (before: bool) {
        *self < *other
    }
}

/// What a ballot is stored under: the proposal and the voter.
#[derive(Debug, PartialEq, Eq)]
pub struct BallotKey {
    pub proposal_id: u64,
    pub voter: String,
}

impl View for BallotKey {
    type V = (u64, Seq<char>);

    open spec fn view(&self) -> (u64, Seq<char>) {
        (self.proposal_id, self.voter@)
    }
}

impl Key for BallotKey {
    open spec fn before(left: (u64, Seq<char>), right: (u64, Seq<char>)) -> bool {
        left.0 < right.0 || (left.0 == right.0 && text_before(left.1, right.1))
    }

    proof fn lemma_irreflexive(key: (u64, Seq<char>)) {
        lemma_bytes_irreflexive(encode_utf8(key.1));
    }

    proof fn lemma_transitive(a: (u64, Seq<char>), b: (u64, Seq<char>), c: (u64, Seq<char>)) {
        if a.0 == b.0 && b.0 == c.0 {
            lemma_bytes_transitive(encode_utf8(a.1), encode_utf8(b.1), encode_utf8(c.1));
        }
    }

    proof fn lemma_total(a: (u64, Seq<char>), b: (u64, Seq<char>)) {
        if a.0 == b.0 {
            lemma_bytes_total(encode_utf8(a.1), encode_utf8(b.1));
            if encode_utf8(a.1) == encode_utf8(b.1) {
                lemma_same_bytes(a.1, b.1);
            }
        }
    }

    fn is_before(&self, other: &BallotKey) -> (before: bool) {
        self.proposal_id < other.proposal_id || (self.proposal_id == other.proposal_id
            && is_text_before(&self.voter, &other.voter))
    }
}

/// Records by key, kept in the order of the keys.
#[derive(Debug, PartialEq, Eq)]
pub struct Table<K, T> {
    rows: Vec<(K, T)>,
}

impl<K: Key, T: View> Table<K, T> {
    /// The records with their keys, in order.
    pub closed spec fn entries(self) -> Seq<(K::V, T::V)> {
        Seq::new(self.rows@.len(), |i: int| (self.rows@[i].0@, self.rows@[i].1@))
    }

    /// The keys ascend, so that none occurs twice.
    pub open spec fn wf(self) -> bool {
        forall|i: int, j: int|
            0 <= i < j < self.entries().len() ==> K::before(
                (#[trigger] self.entries()[i]).0,
                (#[trigger] self.entries()[j]).0,
            )
    }

    /// The record under a key stands in a row.
    pub open spec fn holds(self, key: K::V, row: int) -> bool {
        0 <= row < self.entries().len() && self.entries()[row].0 == key
    }
}

impl<K: Key, T: View> View for Table<K, T> {
    type V = Map<K::V, T::V>;

    open spec fn view(&self) -> Map<K::V, T::V> {
        Map::new(
            |key: K::V| exists|row: int| self.holds(key, row),
            |key: K::V| self.entries()[choose|row: int| self.holds(key, row)].1,
        )
    }
}

impl<K: Key, T: View> Table<K, T> {
    /// A key stands in one row only.
    pub proof fn lemma_one_row(self, key: K::V, row: int)
        requires
            self.wf(),
            self.holds(key, row),
        ensures
            self@.dom().contains(key),
            self@[key] == self.entries()[row].1,
    {
        let other = choose|other: int| self.holds(key, other);
        assert(self.holds(key, other));
        K::lemma_irreflexive(key);
        if other < row {
            assert(K::before(self.entries()[other].0, self.entries()[row].0));
        } else if row < other {
            assert(K::before(self.entries()[row].0, self.entries()[other].0));
        }
    }

    /// A table without records.
    pub fn new() -> (table: Self)
        ensures
            table.wf(),
            table@ == Map::<K::V, T::V>::empty(),
    {
        let table = Table { rows: Vec::new() };
        proof {
            assert(table@ =~= Map::<K::V, T::V>::empty());
        }
        table
    }

    /// The number of records.
    pub fn len(&self) -> (len: usize)
        ensures
            len == self.entries().len(),
    {
        self.rows.len()
    }

    /// The key in a row.
    pub fn key_at(&self, row: usize) -> (key: &K)
        requires
            row < self.entries().len(),
        ensures
            key@ == self.entries()[row as int].0,
    {
        &self.rows[row].0
    }

    /// The record in a row.
    pub fn record_at(&self, row: usize) -> (record: &T)
        requires
            row < self.entries().len(),
        ensures
            record@ == self.entries()[row as int].1,
    {
        &self.rows[row].1
    }

    /// The first row whose key does not come before `key`.
    pub fn first_from(&self, key: &K) -> (row: usize)
        requires
            self.wf(),
        ensures
            row <= self.entries().len(),
            forall|i: int| 0 <= i < row ==> K::before((#[trigger] self.entries()[i]).0, key@),
            forall|i: int|
                row <= i < self.entries().len() ==> !K::before((#[trigger] self.entries()[i]).0, key@),
    {
        let mut low: usize = 0;
        let mut high: usize = self.rows.len();
        while low < high
            invariant
                self.wf(),
                low <= high <= self.rows.len(),
                self.rows.len() == self.entries().len(),
                forall|i: int| 0 <= i < low ==> K::before((#[trigger] self.entries()[i]).0, key@),
                forall|i: int|
                    high <= i < self.entries().len() ==> !K::before(
                        (#[trigger] self.entries()[i]).0,
                        key@,
                    ),
            decreases high - low,
        {
            let middle: usize = low + (high - low) / 2;
            if self.key_at(middle).is_before(key) {
                proof {
                    assert forall|i: int| 0 <= i < middle + 1 implies K::before(
                        (#[trigger] self.entries()[i]).0,
                        key@,
                    ) by {
                        if i < middle {
                            K::lemma_transitive(
                                self.entries()[i].0,
                                self.entries()[middle as int].0,
                                key@,
                            );
                        }
                    }
                }
                low = middle + 1;
            } else {
                proof {
                    assert forall|i: int| middle <= i < self.entries().len() implies !K::before(
                        (#[trigger] self.entries()[i]).0,
                        key@,
                    ) by {
                        if i > middle && K::before(self.entries()[i].0, key@) {
                            K::lemma_transitive(
                                self.entries()[middle as int].0,
                                self.entries()[i].0,
                                key@,
                            );
                        }
                    }
                }
                high = middle;
            }
        }
        low
    }

    /// Where the first row from `key` on leaves `key`: in that row, or nowhere.
    proof fn lemma_first_from(self, key: K::V, row: int)
        requires
            self.wf(),
            0 <= row <= self.entries().len(),
            forall|i: int| 0 <= i < row ==> K::before((#[trigger] self.entries()[i]).0, key),
            forall|i: int|
                row <= i < self.entries().len() ==> !K::before((#[trigger] self.entries()[i]).0, key),
        ensures
            forall|i: int| #[trigger] self.holds(key, i) ==> i == row,
            self@.dom().contains(key) <==> self.holds(key, row),
            row < self.entries().len() ==> (self.holds(key, row) <==> !K::before(
                key,
                self.entries()[row].0,
            )),
            forall|i: int|
                row < i < self.entries().len() ==> K::before(key, (#[trigger] self.entries()[i]).0),
    {
        assert forall|i: int| #[trigger] self.holds(key, i) implies i == row by {
            K::lemma_irreflexive(key);
            if i > row {
                assert(K::before(self.entries()[row].0, self.entries()[i].0));
                assert(!K::before(self.entries()[row].0, key));
            }
        }
        if row < self.entries().len() {
            K::lemma_total(self.entries()[row].0, key);
            K::lemma_irreflexive(key);
        }
        assert forall|i: int| row < i < self.entries().len() implies K::before(
            key,
            (#[trigger] self.entries()[i]).0,
        ) by {
            let first = self.entries()[row].0;
            assert(K::before(first, self.entries()[i].0));
            if first != key {
                K::lemma_total(first, key);
                K::lemma_transitive(key, first, self.entries()[i].0);
            }
        }
    }

    /// The first row whose key comes after `key`.
    pub fn first_after(&self, key: &K) -> (row: usize)
        requires
            self.wf(),
        ensures
            row <= self.entries().len(),
            forall|i: int| 0 <= i < row ==> !K::before(key@, (#[trigger] self.entries()[i]).0),
            forall|i: int|
                row <= i < self.entries().len() ==> K::before(key@, (#[trigger] self.entries()[i]).0),
    {
        let row = self.first_from(key);
        proof {
            self.lemma_first_from(key@, row as int);
            assert forall|i: int| 0 <= i < row implies !K::before(
                key@,
                (#[trigger] self.entries()[i]).0,
            ) by {
                if K::before(key@, self.entries()[i].0) {
                    K::lemma_transitive(key@, self.entries()[i].0, key@);
                    K::lemma_irreflexive(key@);
                }
            }
        }
        if row < self.rows.len() && !key.is_before(self.key_at(row)) {
            row + 1
        } else {
            row
        }
    }

    /// The record under a key.
    pub fn get(&self, key: &K) -> (record: Option<&T>)
        requires
            self.wf(),
        ensures
            match record {
                Some(found) => self@.dom().contains(key@) && found@ == self@[key@],
                None => !self@.dom().contains(key@),
            },
    {
        let row = self.first_from(key);
        proof {
            self.lemma_first_from(key@, row as int);
        }
        if row < self.rows.len() && !key.is_before(self.key_at(row)) {
            proof {
                self.lemma_one_row(key@, row as int);
            }
            Some(self.record_at(row))
        } else {
            None
        }
    }

    /// Stores a record under a key, in place of the one that is there.
    pub fn insert(&mut self, key: K, record: T)
        requires
            old(self).wf(),
        ensures
            final(self).wf(),
            final(self)@ == old(self)@.insert(key@, record@),
    {
        let row = self.first_from(&key);
        let ghost before = *self;
        let ghost entry = (key@, record@);
        proof {
            self.lemma_first_from(key@, row as int);
        }
        if row < self.rows.len() && !key.is_before(self.key_at(row)) {
            self.rows.set(row, (key, record));
            proof {
                assert(self.entries() =~= before.entries().update(row as int, entry));
                assert(self.wf());
                let now = self@;
                let expected = before@.insert(entry.0, entry.1);
                assert forall|k: K::V|
                    #![trigger now.dom().contains(k)]
                    #![trigger expected.dom().contains(k)]
                    now.dom().contains(k) == expected.dom().contains(k) && (now.dom().contains(k)
                        ==> now[k] == expected[k]) by {
                    if exists|i: int| self.holds(k, i) {
                        let i = choose|i: int| self.holds(k, i);
                        assert(before.holds(k, i));
                        self.lemma_one_row(k, i);
                        before.lemma_one_row(k, i);
                    } else if exists|i: int| before.holds(k, i) {
                        let i = choose|i: int| before.holds(k, i);
                        assert(self.holds(k, i));
                    }
                }
                assert(now =~= expected);
            }
        } else {
            self.rows.insert(row, (key, record));
            proof {
                let old_entries = before.entries();
                assert(self.entries() =~= old_entries.insert(row as int, entry));
                assert forall|i: int, j: int| 0 <= i < j < self.entries().len() implies K::before(
                    (#[trigger] self.entries()[i]).0,
                    (#[trigger] self.entries()[j]).0,
                ) by {
                    let old_i = if i < row { i } else { i - 1 };
                    let old_j = if j < row { j } else { j - 1 };
                    if i != row && j != row {
                        assert(K::before(old_entries[old_i].0, old_entries[old_j].0));
                    } else if i == row {
                        assert(old_entries[old_j] == self.entries()[j]);
                    } else {
                        assert(old_entries[old_i] == self.entries()[i]);
                    }
                }
                let now = self@;
                let expected = before@.insert(entry.0, entry.1);
                assert forall|k: K::V|
                    #![trigger now.dom().contains(k)]
                    #![trigger expected.dom().contains(k)]
                    now.dom().contains(k) == expected.dom().contains(k) && (now.dom().contains(k)
                        ==> now[k] == expected[k]) by {
                    if k == entry.0 {
                        assert(self.holds(k, row as int));
                        self.lemma_one_row(k, row as int);
                    } else if exists|i: int| before.holds(k, i) {
                        let i = choose|i: int| before.holds(k, i);
                        let moved = if i < row { i } else { i + 1 };
                        assert(self.holds(k, moved));
                        self.lemma_one_row(k, moved);
                        before.lemma_one_row(k, i);
                    } else if exists|i: int| self.holds(k, i) {
                        let i = choose|i: int| self.holds(k, i);
                        let then = if i < row { i } else { i - 1 };
                        assert(before.holds(k, then));
                    }
                }
                assert(now =~= expected);
            }
        }
    }
}

} // verus!
