//! The keymap buffer: a finite mapping from key positions (row, column) to
//! symbolic codes.
//!
//! A buffer is held as a vector of entries kept strictly sorted in row-major
//! order, so keys are unique, lookups are unambiguous, and two buffers denote
//! the same mapping exactly when they hold the same entries. The buffer's
//! mathematical meaning is the [`Map`] returned by its view.

use vstd::prelude::*;

use crate::keycodes::KeyboardUsage;

verus! {

/// One key assignment: the symbolic code bound at a (row, column) position.
#[derive(Clone, Copy, Debug, PartialEq, Eq, Structural)]
#[verifier::ext_equal]
pub struct KeyEntry {
    pub row: usize,
    pub col: usize,
    pub code: KeyboardUsage,
}

/// The position an entry binds.
pub open spec fn entry_pos(e: KeyEntry) -> (usize, usize) {
    (e.row, e.col)
}

/// Strict row-major order on positions: by row, then by column.
pub open spec fn pos_lt(a: (usize, usize), b: (usize, usize)) -> bool {
    a.0 < b.0 || (a.0 == b.0 && a.1 < b.1)
}

/// Entries strictly ascending in row-major order. Strictness makes every
/// position occur at most once.
pub open spec fn sorted_entries(s: Seq<KeyEntry>) -> bool {
    forall|i: int, j: int|
        0 <= i < j < s.len() ==> pos_lt(entry_pos(s[i]), entry_pos(s[j]))
}

/// The mapping a sequence of entries denotes; a later entry overrides an
/// earlier one at the same position.
pub open spec fn entry_map(s: Seq<KeyEntry>) -> Map<(usize, usize), KeyboardUsage>
    decreases s.len(),
{
    if s.len() == 0 {
        Map::empty()
    } else {
        entry_map(s.drop_last()).insert(entry_pos(s.last()), s.last().code)
    }
}

/// A position that no entry binds is not in the denoted mapping.
pub proof fn lemma_entry_map_absent(s: Seq<KeyEntry>, p: (usize, usize))
    requires
        forall|i: int| 0 <= i < s.len() ==> entry_pos(s[i]) != p,
    ensures
        !entry_map(s).contains_key(p),
    decreases s.len(),
{
    if s.len() > 0 {
        lemma_entry_map_absent(s.drop_last(), p);
    }
}

/// In a sorted sequence, each entry's position is bound to that entry's code.
pub proof fn lemma_entry_map_present(s: Seq<KeyEntry>, i: int)
    requires
        sorted_entries(s),
        0 <= i < s.len(),
    ensures
        entry_map(s).contains_key(entry_pos(s[i])),
        entry_map(s)[entry_pos(s[i])] == s[i].code,
    decreases s.len(),
{
    if i < s.len() - 1 {
        lemma_entry_map_present(s.drop_last(), i);
        assert(pos_lt(entry_pos(s[i]), entry_pos(s.last())));
    }
}

/// A position in the denoted mapping is bound by some entry.
pub proof fn lemma_entry_map_to_index(s: Seq<KeyEntry>, p: (usize, usize))
    requires
        entry_map(s).contains_key(p),
    ensures
        exists|i: int| 0 <= i < s.len() && entry_pos(s[i]) == p,
    decreases s.len(),
{
    if s.len() > 0 {
        if entry_pos(s.last()) == p {
            assert(entry_pos(s[s.len() - 1]) == p);
        } else {
            lemma_entry_map_to_index(s.drop_last(), p);
            let i = choose|i: int|
                0 <= i < s.drop_last().len() && entry_pos(s.drop_last()[i]) == p;
            assert(entry_pos(s[i]) == p);
        }
    }
}

/// Sorted sequences that denote the same mapping are the same sequence: the
/// sorted form of a mapping is canonical.
pub proof fn lemma_map_eq_seq_eq(s: Seq<KeyEntry>, t: Seq<KeyEntry>)
    requires
        sorted_entries(s),
        sorted_entries(t),
        entry_map(s) == entry_map(t),
    ensures
        s =~= t,
    decreases s.len(),
{
    if s.len() == 0 {
        if t.len() > 0 {
            lemma_entry_map_present(t, t.len() - 1);
            assert(entry_map(s).contains_key(entry_pos(t.last())));
            assert(false);
        }
    } else if t.len() == 0 {
        lemma_entry_map_present(s, s.len() - 1);
        assert(false);
    } else {
        let ps = entry_pos(s.last());
        let pt = entry_pos(t.last());
        lemma_entry_map_present(s, s.len() - 1);
        lemma_entry_map_present(t, t.len() - 1);

        // The last entries bind the same position: each last position is the
        // row-major maximum of a shared key set.
        lemma_entry_map_to_index(t, ps);
        let i = choose|i: int| 0 <= i < t.len() && entry_pos(t[i]) == ps;
        if i < t.len() - 1 {
            assert(pos_lt(ps, pt));
        }
        lemma_entry_map_to_index(s, pt);
        let j = choose|j: int| 0 <= j < s.len() && entry_pos(s[j]) == pt;
        if j < s.len() - 1 {
            assert(pos_lt(pt, ps));
        }
        assert(ps == pt);
        assert(s.last().code == t.last().code);
        assert(s.last() =~= t.last());

        let s1 = s.drop_last();
        let t1 = t.drop_last();
        assert forall|k: int| 0 <= k < s1.len() implies entry_pos(s1[k]) != ps by {
            assert(pos_lt(entry_pos(s[k]), ps));
        }
        lemma_entry_map_absent(s1, ps);
        assert forall|k: int| 0 <= k < t1.len() implies entry_pos(t1[k]) != pt by {
            assert(pos_lt(entry_pos(t[k]), pt));
        }
        lemma_entry_map_absent(t1, pt);
        assert(entry_map(s1) =~= entry_map(s).remove(ps));
        assert(entry_map(t1) =~= entry_map(t).remove(pt));
        lemma_map_eq_seq_eq(s1, t1);
        assert(s.len() == t.len());
        assert forall|k: int| 0 <= k < s.len() implies s[k] == t[k] by {
            if k < s.len() - 1 {
                assert(s[k] == s1[k]);
                assert(t[k] == t1[k]);
                assert(s1[k] == t1[k]);
            } else {
                assert(s[k] == s.last());
                assert(t[k] == t.last());
            }
        }
        assert(s =~= t);
    }
}

/// Inserting an entry between the keys below it and the keys above it denotes
/// exactly a map insert.
proof fn lemma_entry_map_insert_mid(s: Seq<KeyEntry>, t: Seq<KeyEntry>, i: int, e: KeyEntry)
    requires
        0 <= i <= s.len(),
        forall|k: int| 0 <= k < i ==> pos_lt(entry_pos(s[k]), entry_pos(e)),
        forall|k: int| i <= k < s.len() ==> pos_lt(entry_pos(e), entry_pos(s[k])),
        t.len() == s.len() + 1,
        t[i] == e,
        forall|k: int| 0 <= k < i ==> t[k] == s[k],
        forall|k: int| i < k < t.len() ==> t[k] == s[k - 1],
    ensures
        entry_map(t) == entry_map(s).insert(entry_pos(e), e.code),
    decreases s.len(),
{
    if i == s.len() {
        assert(t.drop_last() =~= s);
    } else {
        let s1 = s.drop_last();
        let t1 = t.drop_last();
        lemma_entry_map_insert_mid(s1, t1, i, e);
        assert(t.last() == s.last());
        assert(pos_lt(entry_pos(e), entry_pos(s.last())));
        assert(entry_map(s1).insert(entry_pos(e), e.code).insert(
            entry_pos(s.last()),
            s.last().code,
        ) =~= entry_map(s1).insert(entry_pos(s.last()), s.last().code).insert(
            entry_pos(e),
            e.code,
        ));
    }
}

/// Overwriting the entry at a position denotes exactly a map insert at that
/// position.
proof fn lemma_entry_map_replace(s: Seq<KeyEntry>, t: Seq<KeyEntry>, i: int, e: KeyEntry)
    requires
        sorted_entries(s),
        0 <= i < s.len(),
        entry_pos(s[i]) == entry_pos(e),
        t.len() == s.len(),
        t[i] == e,
        forall|k: int| 0 <= k < s.len() && k != i ==> t[k] == s[k],
    ensures
        entry_map(t) == entry_map(s).insert(entry_pos(e), e.code),
    decreases s.len(),
{
    if i == s.len() - 1 {
        assert(t.drop_last() =~= s.drop_last());
        assert(entry_map(s.drop_last()).insert(entry_pos(e), e.code) =~= entry_map(
            s.drop_last(),
        ).insert(entry_pos(s.last()), s.last().code).insert(entry_pos(e), e.code));
    } else {
        let s1 = s.drop_last();
        let t1 = t.drop_last();
        lemma_entry_map_replace(s1, t1, i, e);
        assert(t.last() == s.last());
        assert(pos_lt(entry_pos(e), entry_pos(s.last())));
        assert(entry_map(s1).insert(entry_pos(e), e.code).insert(
            entry_pos(s.last()),
            s.last().code,
        ) =~= entry_map(s1).insert(entry_pos(s.last()), s.last().code).insert(
            entry_pos(e),
            e.code,
        ));
    }
}

/// Whether the entry at an index lies strictly below a position in row-major
/// order.
fn entry_before(v: &Vec<KeyEntry>, i: usize, row: usize, col: usize) -> (r: bool)
    requires
        i < v@.len(),
    ensures
        r == pos_lt(entry_pos(v@[i as int]), (row, col)),
{
    let c = v[i];
    c.row < row || (c.row == row && c.col < col)
}

/// A buffer of key assignments: one keymap state (current or saved).
#[derive(Debug)]
pub struct KeymapBuffer {
    pub entries: Vec<KeyEntry>,
}

impl View for KeymapBuffer {
    type V = Map<(usize, usize), KeyboardUsage>;

    open spec fn view(&self) -> Map<(usize, usize), KeyboardUsage> {
        entry_map(self.entries@)
    }
}

impl KeymapBuffer {
    /// Well-formed: entries strictly sorted in row-major order.
    pub open spec fn wf(&self) -> bool {
        sorted_entries(self.entries@)
    }

    /// The sorted entry sequence the buffer holds.
    pub open spec fn seq(&self) -> Seq<KeyEntry> {
        self.entries@
    }

    /// The empty buffer.
    pub fn new() -> (r: KeymapBuffer)
        ensures
            r.wf(),
            r@ == Map::<(usize, usize), KeyboardUsage>::empty(),
            r.seq() == Seq::<KeyEntry>::empty(),
    {
        KeymapBuffer { entries: Vec::new() }
    }

    /// The number of bound positions.
    pub fn len(&self) -> (n: usize)
        ensures
            n == self.seq().len(),
    {
        self.entries.len()
    }

    /// The entry at an index of the sorted entry sequence.
    pub fn entry_at(&self, i: usize) -> (e: KeyEntry)
        requires
            i < self.seq().len(),
        ensures
            e == self.seq()[i as int],
    {
        self.entries[i]
    }

    /// An exact copy of this buffer.
    pub fn duplicate(&self) -> (r: KeymapBuffer)
        ensures
            r.seq() == self.seq(),
            r@ == self@,
            r.wf() == self.wf(),
    {
        let mut entries: Vec<KeyEntry> = Vec::new();
        let mut i: usize = 0;
        while i < self.entries.len()
            invariant
                i <= self.entries.len(),
                entries@ =~= self.entries@.take(i as int),
            decreases self.entries.len() - i,
        {
            entries.push(self.entries[i]);
            i += 1;
        }
        proof {
            assert(entries@ =~= self.entries@);
        }
        KeymapBuffer { entries }
    }

    /// The code bound at a position, if any.
    pub fn get(&self, row: usize, col: usize) -> (r: Option<KeyboardUsage>)
        requires
            self.wf(),
        ensures
            r == if self@.contains_key((row, col)) {
                Some(self@[(row, col)])
            } else {
                None::<KeyboardUsage>
            },
    {
        let mut i: usize = 0;
        let n = self.entries.len();
        while i < n
            invariant
                self.wf(),
                n == self.seq().len(),
                i <= n,
                forall|k: int| 0 <= k < i ==> entry_pos(self.seq()[k]) != (row, col),
            decreases n - i,
        {
            let e = self.entries[i];
            if e.row == row && e.col == col {
                proof {
                    lemma_entry_map_present(self.seq(), i as int);
                }
                return Some(e.code);
            }
            i += 1;
        }
        proof {
            lemma_entry_map_absent(self.seq(), (row, col));
        }
        None
    }

    /// The code a position resolves to: the bound code, or the sentinel where
    /// the position is missing.
    pub fn code_at(&self, row: usize, col: usize) -> (r: KeyboardUsage)
        requires
            self.wf(),
        ensures
            r == if self@.contains_key((row, col)) {
                self@[(row, col)]
            } else {
                KeyboardUsage::Reserved
            },
    {
        match self.get(row, col) {
            Some(c) => c,
            None => KeyboardUsage::Reserved,
        }
    }

    /// Bind a code at a position, replacing any previous binding and keeping
    /// the entries sorted.
    pub fn set(&mut self, row: usize, col: usize, code: KeyboardUsage)
        requires
            old(self).wf(),
        ensures
            final(self).wf(),
            final(self)@ == old(self)@.insert((row, col), code),
    {
        let e = KeyEntry { row, col, code };
        let n = self.entries.len();
        let mut i: usize = 0;
        while i < n && entry_before(&self.entries, i, row, col)
            invariant
                self.wf(),
                n == self.seq().len(),
                i <= n,
                forall|k: int| 0 <= k < i ==> pos_lt(entry_pos(self.seq()[k]), (row, col)),
            decreases n - i,
        {
            i += 1;
        }
        if i < n && self.entries[i].row == row && self.entries[i].col == col {
            let ghost s = self.seq();
            self.entries.remove(i);
            self.entries.insert(i, e);
            proof {
                assert(self.seq() =~= s.update(i as int, e));
                lemma_entry_map_replace(s, self.seq(), i as int, e);
                assert forall|p: int, q: int|
                    0 <= p < q < self.seq().len() implies pos_lt(
                    entry_pos(self.seq()[p]),
                    entry_pos(self.seq()[q]),
                ) by {
                    assert(pos_lt(entry_pos(s[p]), entry_pos(s[q])));
                }
            }
        } else {
            let ghost s = self.seq();
            proof {
                // Everything at or after index i lies strictly above the new
                // position in row-major order.
                assert forall|k: int| i <= k < s.len() implies pos_lt(
                    (row, col),
                    entry_pos(s[k]),
                ) by {
                    if k == i {
                        assert(!pos_lt(entry_pos(s[k]), (row, col)));
                        assert(entry_pos(s[k]) != (row, col));
                    } else {
                        assert(!pos_lt(entry_pos(s[i as int]), (row, col)));
                        assert(entry_pos(s[i as int]) != (row, col));
                        assert(pos_lt(entry_pos(s[i as int]), entry_pos(s[k])));
                    }
                }
            }
            self.entries.insert(i, e);
            proof {
                lemma_entry_map_insert_mid(s, self.seq(), i as int, e);
                assert forall|p: int, q: int|
                    0 <= p < q < self.seq().len() implies pos_lt(
                    entry_pos(self.seq()[p]),
                    entry_pos(self.seq()[q]),
                ) by {
                    let t = self.seq();
                    if q < i {
                        assert(pos_lt(entry_pos(s[p]), entry_pos(s[q])));
                    } else if p > i {
                        assert(pos_lt(entry_pos(s[p - 1]), entry_pos(s[q - 1])));
                    } else if p < i && q > i {
                        assert(pos_lt(entry_pos(s[p]), entry_pos(s[q - 1])));
                    }
                }
            }
        }
    }

    /// Whether this buffer and another denote the same mapping.
    pub fn same_mapping(&self, other: &KeymapBuffer) -> (r: bool)
        requires
            self.wf(),
            other.wf(),
        ensures
            r == (self@ == other@),
    {
        let n = self.entries.len();
        if n != other.entries.len() {
            proof {
                if self@ == other@ {
                    lemma_map_eq_seq_eq(self.seq(), other.seq());
                }
            }
            return false;
        }
        let mut i: usize = 0;
        while i < n
            invariant
                self.wf(),
                other.wf(),
                n == self.seq().len(),
                n == other.seq().len(),
                i <= n,
                forall|k: int| 0 <= k < i ==> self.seq()[k] == other.seq()[k],
            decreases n - i,
        {
            let a = self.entries[i];
            let b = other.entries[i];
            if !(a.row == b.row && a.col == b.col && a.code == b.code) {
                proof {
                    if self@ == other@ {
                        lemma_map_eq_seq_eq(self.seq(), other.seq());
                        assert(self.seq()[i as int] =~= other.seq()[i as int]);
                    }
                }
                return false;
            }
            proof {
                assert(self.seq()[i as int] =~= other.seq()[i as int]);
            }
            i += 1;
        }
        proof {
            assert(self.seq() =~= other.seq());
        }
        true
    }
}

} // verus!
