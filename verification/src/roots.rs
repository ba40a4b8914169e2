//! The closure table: an ordered run of slots handing out stable integer
//! handles for values referenced from outside the managed heap.
//!
//! A slot holds either a live value word or is free. `add` fills the
//! lowest-numbered free slot, appending a new one only when none is free;
//! the returned index stays valid, and keeps naming the same entry, until
//! it is removed. A freed index may be reused by a later `add`, a live one
//! never.

use vstd::prelude::*;
use crate::error::TableError;

verus! {

/// The lowest free slot of `s`, or `s.len()` when every slot is live.
pub open spec fn spec_first_free(s: Seq<Option<u32>>) -> int
    decreases s.len(),
{
    if s.len() == 0 {
        0
    } else if s[0] is None {
        0
    } else {
        1 + spec_first_free(s.drop_first())
    }
}

/// What `add` does: the table after storing `v`, and the index handed out.
pub open spec fn spec_add(s: Seq<Option<u32>>, v: u32) -> (Seq<Option<u32>>, int) {
    let i = spec_first_free(s);
    if i < s.len() {
        (s.update(i, Some(v)), i)
    } else {
        (s.push(Some(v)), i)
    }
}

/// What `get` returns for index `i`.
pub open spec fn spec_get(s: Seq<Option<u32>>, i: int) -> Result<u32, TableError> {
    if !(0 <= i < s.len()) {
        Err(TableError::IndexOutOfRange)
    } else {
        match s[i] {
            Some(v) => Ok(v),
            None => Err(TableError::SlotFree),
        }
    }
}

/// What `remove` does: the table with slot `i` freed, or the misuse it
/// rejects.
pub open spec fn spec_remove(s: Seq<Option<u32>>, i: int) -> Result<Seq<Option<u32>>, TableError> {
    if !(0 <= i < s.len()) {
        Err(TableError::IndexOutOfRange)
    } else if s[i] is None {
        Err(TableError::SlotFree)
    } else {
        Ok(s.update(i, None))
    }
}

/// The slots below `spec_first_free` are all live, and the slot there, if
/// any, is free.
pub proof fn lemma_first_free_props(s: Seq<Option<u32>>)
    ensures
        0 <= spec_first_free(s) <= s.len(),
        spec_first_free(s) < s.len() ==> s[spec_first_free(s)] is None,
        forall|j: int| 0 <= j < spec_first_free(s) ==> s[j] is Some,
    decreases s.len(),
{
    if s.len() > 0 && s[0] is Some {
        lemma_first_free_props(s.drop_first());
        assert forall|j: int| 0 <= j < spec_first_free(s) implies s[j] is Some by {
            if j > 0 {
                assert(s.drop_first()[j - 1] is Some);
            }
        }
    }
}

/// A run of live slots ending at a free slot (or at the end) pins down
/// `spec_first_free`.
pub proof fn lemma_first_free_from_scan(s: Seq<Option<u32>>, i: int)
    requires
        0 <= i <= s.len(),
        forall|j: int| 0 <= j < i ==> s[j] is Some,
        i == s.len() || s[i] is None,
    ensures
        spec_first_free(s) == i,
    decreases s.len(),
{
    if s.len() > 0 && i > 0 {
        assert(s[0] is Some);
        assert forall|j: int| 0 <= j < i - 1 implies s.drop_first()[j] is Some by {
            assert(s[j + 1] is Some);
        }
        lemma_first_free_from_scan(s.drop_first(), i - 1);
    }
}

/// The table of slots. Its view is the sequence of slot contents.
pub struct ClosureTable {
    pub slots: Vec<Option<u32>>,
}

impl View for ClosureTable {
    type V = Seq<Option<u32>>;

    open spec fn view(&self) -> Seq<Option<u32>> {
        self.slots@
    }
}

impl ClosureTable {
    /// An empty table: no slots at all.
    pub fn new() -> (t: ClosureTable)
        ensures
            t@ == Seq::<Option<u32>>::empty(),
    {
        ClosureTable { slots: Vec::new() }
    }

    /// How many slots the table has, free ones included.
    pub fn len(&self) -> (n: usize)
        ensures
            n == self@.len(),
    {
        self.slots.len()
    }

    /// The content of slot `i`, free slots included; fails only for an
    /// index that names no slot.
    pub fn slot(&self, i: usize) -> (r: Result<Option<u32>, TableError>)
        ensures
            match r {
                Ok(c) => i < self@.len() && c == self@[i as int],
                Err(e) => i >= self@.len() && e == TableError::IndexOutOfRange,
            },
    {
        if i < self.slots.len() {
            Ok(self.slots[i])
        } else {
            Err(TableError::IndexOutOfRange)
        }
    }

    /// Store `v` in the lowest free slot, appending one when every slot is
    /// live, and hand out the slot's index.
    pub fn add(&mut self, v: u32) -> (i: usize)
        requires
            old(self)@.len() < usize::MAX,
        ensures
            (final(self)@, i as int) == spec_add(old(self)@, v),
    {
        let n = self.slots.len();
        let mut k: usize = 0;
        while k < n
            invariant
                n == self@.len(),
                0 <= k <= n,
                self@ == old(self)@,
                forall|j: int| 0 <= j < k ==> self@[j] is Some,
            decreases n - k,
        {
            if self.slots[k].is_none() {
                proof {
                    lemma_first_free_from_scan(self@, k as int);
                }
                self.slots.set(k, Some(v));
                return k;
            }
            k = k + 1;
        }
        proof {
            lemma_first_free_from_scan(self@, n as int);
        }
        self.slots.push(Some(v));
        n
    }

    /// The value held by the live slot `i`.
    pub fn get(&self, i: usize) -> (r: Result<u32, TableError>)
        ensures
            r == spec_get(self@, i as int),
    {
        if i >= self.slots.len() {
            Err(TableError::IndexOutOfRange)
        } else {
            match self.slots[i] {
                Some(v) => Ok(v),
                None => Err(TableError::SlotFree),
            }
        }
    }

    /// Free the live slot `i`; rejects an index out of range or a slot
    /// that is already free, leaving the table unchanged.
    pub fn remove(&mut self, i: usize) -> (r: Result<(), TableError>)
        ensures
            match (r, spec_remove(old(self)@, i as int)) {
                (Ok(()), Ok(s)) => final(self)@ == s,
                (Err(e1), Err(e2)) => e1 == e2 && final(self)@ == old(self)@,
                _ => false,
            },
    {
        if i >= self.slots.len() {
            Err(TableError::IndexOutOfRange)
        } else if self.slots[i].is_none() {
            Err(TableError::SlotFree)
        } else {
            self.slots.set(i, None);
            Ok(())
        }
    }
}

/// Adding a value and reading back through the returned handle yields
/// that value.
pub proof fn lemma_add_then_get(s: Seq<Option<u32>>, v: u32)
    ensures
        spec_get(spec_add(s, v).0, spec_add(s, v).1) == Ok::<u32, TableError>(v),
{
    lemma_first_free_props(s);
}

/// After a remove, reading through the removed handle fails as a free
/// slot.
pub proof fn lemma_remove_then_get(s: Seq<Option<u32>>, i: int)
    requires
        spec_remove(s, i) is Ok,
    ensures
        spec_get(spec_remove(s, i).unwrap(), i) == Err::<u32, TableError>(TableError::SlotFree),
{
}

/// The next add after a remove reuses a freed slot — at latest the one
/// just freed — before it would ever append a new slot.
pub proof fn lemma_add_reuses_freed(s: Seq<Option<u32>>, i: int, v: u32)
    requires
        spec_remove(s, i) is Ok,
    ensures
        spec_add(spec_remove(s, i).unwrap(), v).1 <= i,
        spec_add(spec_remove(s, i).unwrap(), v).0.len() == s.len(),
{
    let s2 = spec_remove(s, i).unwrap();
    lemma_first_free_props(s2);
    assert(s2[i] is None);
}

/// An add touches no other slot: every live handle keeps naming the same
/// entry across unrelated adds.
pub proof fn lemma_add_preserves_other_slots(s: Seq<Option<u32>>, v: u32, j: int)
    requires
        0 <= j < s.len(),
        j != spec_add(s, v).1,
    ensures
        spec_add(s, v).0[j] == s[j],
{
    lemma_first_free_props(s);
}

/// A remove touches no other slot: every other live handle keeps naming
/// the same entry.
pub proof fn lemma_remove_preserves_other_slots(s: Seq<Option<u32>>, i: int, j: int)
    requires
        spec_remove(s, i) is Ok,
        0 <= j < s.len(),
        j != i,
    ensures
        spec_remove(s, i).unwrap()[j] == s[j],
{
}

/// An add never hands out the handle of a live slot: the slot it fills
/// was free (or did not exist yet).
pub proof fn lemma_add_never_reuses_live(s: Seq<Option<u32>>, v: u32)
    ensures
        spec_add(s, v).1 < s.len() ==> s[spec_add(s, v).1] is None,
        spec_add(s, v).1 <= s.len(),
{
    lemma_first_free_props(s);
}

} // verus!
