//! The record of pending verification attempts, at most one per phone number.
//!
//! The record is seen as a map from phone number to the time at which the
//! number's attempt was created. An attempt that has outlived the admission
//! window stays in the record until a later insert for the same number
//! replaces it, or a delete removes it.

use vstd::prelude::*;
use crate::admission::{attempt_is_live, is_live};

verus! {

/// One pending verification: the number it is for and when it was created.
#[derive(Debug)]
pub struct VerificationAttempt {
    pub phone_number: String,
    pub created_at: u64,
}

/// The attempts on record.
#[derive(Debug)]
pub struct VerificationStore {
    attempts: Vec<VerificationAttempt>,
}

/// Whether `record` holds an attempt for `phone_number` that is live at `now`.
pub open spec fn has_live(record: Map<Seq<char>, u64>, phone_number: Seq<char>, now: u64) -> bool {
    record.contains_key(phone_number) && is_live(record[phone_number] as int, now as int)
}

spec fn listed(attempts: Seq<VerificationAttempt>, phone_number: Seq<char>) -> bool {
    exists|i: int| 0 <= i < attempts.len() && attempts[i].phone_number@ == phone_number
}

spec fn slot_of(attempts: Seq<VerificationAttempt>, phone_number: Seq<char>) -> int {
    choose|i: int| 0 <= i < attempts.len() && attempts[i].phone_number@ == phone_number
}

spec fn one_per_number(attempts: Seq<VerificationAttempt>) -> bool {
    forall|i: int, j: int|
        0 <= i < j < attempts.len() ==> attempts[i].phone_number@ != attempts[j].phone_number@
}

spec fn as_map(attempts: Seq<VerificationAttempt>) -> Map<Seq<char>, u64> {
    Map::new(
        |p: Seq<char>| listed(attempts, p),
        |p: Seq<char>| attempts[slot_of(attempts, p)].created_at,
    )
}

proof fn lemma_entry(attempts: Seq<VerificationAttempt>, i: int)
    requires
        one_per_number(attempts),
        0 <= i < attempts.len(),
    ensures
        listed(attempts, attempts[i].phone_number@),
        slot_of(attempts, attempts[i].phone_number@) == i,
        as_map(attempts).contains_key(attempts[i].phone_number@),
        as_map(attempts)[attempts[i].phone_number@] == attempts[i].created_at,
{
    let p = attempts[i].phone_number@;
    assert(listed(attempts, p));
    let j = slot_of(attempts, p);
    assert(0 <= j < attempts.len() && attempts[j].phone_number@ == p);
    if j < i {
        assert(attempts[j].phone_number@ != attempts[i].phone_number@);
    }
    if i < j {
        assert(attempts[i].phone_number@ != attempts[j].phone_number@);
    }
}

proof fn lemma_push(attempts: Seq<VerificationAttempt>, attempt: VerificationAttempt)
    requires
        one_per_number(attempts),
        !listed(attempts, attempt.phone_number@),
    ensures
        one_per_number(attempts.push(attempt)),
        as_map(attempts.push(attempt)) == as_map(attempts).insert(
            attempt.phone_number@,
            attempt.created_at,
        ),
{
    let grown = attempts.push(attempt);
    let last = attempts.len() as int;
    assert forall|i: int, j: int| 0 <= i < j < grown.len() implies grown[i].phone_number@
        != grown[j].phone_number@ by {
        if j < last {
            assert(attempts[i].phone_number@ != attempts[j].phone_number@);
        } else {
            assert(grown[i] == attempts[i]);
        }
    }
    let want = as_map(attempts).insert(attempt.phone_number@, attempt.created_at);
    assert forall|p: Seq<char>| as_map(grown).contains_key(p) <==> want.contains_key(p) by {
        if listed(attempts, p) {
            let i = slot_of(attempts, p);
            assert(grown[i] == attempts[i]);
        }
        if p == attempt.phone_number@ {
            assert(grown[last] == attempt);
        }
        if listed(grown, p) {
            let i = slot_of(grown, p);
            if i < last {
                assert(grown[i] == attempts[i]);
            }
        }
    }
    assert forall|p: Seq<char>| as_map(grown).contains_key(p) implies as_map(grown)[p]
        == want[p] by {
        let i = slot_of(grown, p);
        lemma_entry(grown, i);
        if i < last {
            assert(grown[i] == attempts[i]);
            lemma_entry(attempts, i);
        }
    }
    assert(as_map(grown) =~= want);
}

proof fn lemma_replace(attempts: Seq<VerificationAttempt>, i: int, attempt: VerificationAttempt)
    requires
        one_per_number(attempts),
        0 <= i < attempts.len(),
        attempts[i].phone_number@ == attempt.phone_number@,
    ensures
        one_per_number(attempts.update(i, attempt)),
        as_map(attempts.update(i, attempt)) == as_map(attempts).insert(
            attempt.phone_number@,
            attempt.created_at,
        ),
{
    let changed = attempts.update(i, attempt);
    assert forall|a: int, b: int| 0 <= a < b < changed.len() implies changed[a].phone_number@
        != changed[b].phone_number@ by {
        assert(attempts[a].phone_number@ != attempts[b].phone_number@);
    }
    let want = as_map(attempts).insert(attempt.phone_number@, attempt.created_at);
    assert forall|p: Seq<char>| as_map(changed).contains_key(p) <==> want.contains_key(p) by {
        if listed(attempts, p) {
            let k = slot_of(attempts, p);
            assert(changed[k].phone_number@ == p);
        }
        if p == attempt.phone_number@ {
            assert(changed[i].phone_number@ == p);
        }
        if listed(changed, p) {
            let k = slot_of(changed, p);
            assert(attempts[k].phone_number@ == p);
        }
    }
    assert forall|p: Seq<char>| as_map(changed).contains_key(p) implies as_map(changed)[p]
        == want[p] by {
        let k = slot_of(changed, p);
        lemma_entry(changed, k);
        if k != i {
            assert(changed[k] == attempts[k]);
            lemma_entry(attempts, k);
            lemma_entry(attempts, i);
        }
    }
    assert(as_map(changed) =~= want);
}

proof fn lemma_remove(attempts: Seq<VerificationAttempt>, i: int)
    requires
        one_per_number(attempts),
        0 <= i < attempts.len(),
    ensures
        one_per_number(attempts.remove(i)),
        as_map(attempts.remove(i)) == as_map(attempts).remove(attempts[i].phone_number@),
{
    let rest = attempts.remove(i);
    let gone = attempts[i].phone_number@;
    assert forall|a: int| 0 <= a < rest.len() implies #[trigger] rest[a] == attempts[if a < i {
        a
    } else {
        a + 1
    }] by {}
    assert forall|a: int, b: int| 0 <= a < b < rest.len() implies rest[a].phone_number@
        != rest[b].phone_number@ by {
        let a0 = if a < i { a } else { a + 1 };
        let b0 = if b < i { b } else { b + 1 };
        assert(attempts[a0].phone_number@ != attempts[b0].phone_number@);
    }
    let want = as_map(attempts).remove(gone);
    assert forall|p: Seq<char>| as_map(rest).contains_key(p) <==> want.contains_key(p) by {
        if listed(attempts, p) && p != gone {
            let k = slot_of(attempts, p);
            let k1 = if k < i { k } else { k - 1 };
            assert(rest[k1] == attempts[k]);
        }
        if listed(rest, p) {
            let k = slot_of(rest, p);
            let k0 = if k < i { k } else { k + 1 };
            assert(attempts[k0].phone_number@ == p);
            if k0 < i {
                assert(attempts[k0].phone_number@ != attempts[i].phone_number@);
            } else {
                assert(attempts[i].phone_number@ != attempts[k0].phone_number@);
            }
        }
    }
    assert forall|p: Seq<char>| as_map(rest).contains_key(p) implies as_map(rest)[p]
        == want[p] by {
        let k = slot_of(rest, p);
        lemma_entry(rest, k);
        let k0 = if k < i { k } else { k + 1 };
        lemma_entry(attempts, k0);
    }
    assert(as_map(rest) =~= want);
}

proof fn lemma_absent(attempts: Seq<VerificationAttempt>, phone_number: Seq<char>)
    requires
        forall|i: int| 0 <= i < attempts.len() ==> attempts[i].phone_number@ != phone_number,
    ensures
        !listed(attempts, phone_number),
        !as_map(attempts).contains_key(phone_number),
{
}

proof fn lemma_count(attempts: Seq<VerificationAttempt>)
    requires
        one_per_number(attempts),
    ensures
        as_map(attempts).dom().finite(),
        as_map(attempts).dom().len() == attempts.len(),
    decreases attempts.len(),
{
    if attempts.len() == 0 {
        assert(as_map(attempts).dom() =~= Set::<Seq<char>>::empty());
    } else {
        let i = attempts.len() - 1;
        let shorter = attempts.remove(i);
        lemma_remove(attempts, i);
        lemma_entry(attempts, i);
        lemma_count(shorter);
        let key = attempts[i].phone_number@;
        assert(as_map(attempts).dom() =~= as_map(shorter).dom().insert(key));
    }
}

impl View for VerificationStore {
    type V = Map<Seq<char>, u64>;

    /// The creation time of each number's attempt.
    closed spec fn view(&self) -> Map<Seq<char>, u64> {
        as_map(self.attempts@)
    }
}

impl VerificationStore {
    #[verifier::type_invariant]
    spec fn well_formed(self) -> bool {
        one_per_number(self.attempts@)
    }

    /// A record without attempts.
    pub fn new() -> (store: Self)
        ensures
            store@ == Map::<Seq<char>, u64>::empty(),
    {
        let store = VerificationStore { attempts: Vec::new() };
        assert(store@ =~= Map::<Seq<char>, u64>::empty());
        store
    }

    /// The number of attempts on record, live or expired.
    pub fn len(&self) -> (count: usize)
        ensures
            self@.dom().finite(),
            count == self@.dom().len(),
    {
        proof {
            use_type_invariant(self);
            lemma_count(self.attempts@);
        }
        self.attempts.len()
    }

    fn position(&self, phone_number: &String) -> (slot: Option<usize>)
        ensures
            match slot {
                Some(i) => i < self.attempts@.len() && self.attempts@[i as int].phone_number@
                    == phone_number@,
                None => !listed(self.attempts@, phone_number@),
            },
    {
        let mut i: usize = 0;
        while i < self.attempts.len()
            invariant
                i <= self.attempts@.len(),
                forall|k: int| 0 <= k < i ==> self.attempts@[k].phone_number@ != phone_number@,
            decreases self.attempts@.len() - i,
        {
            if self.attempts[i].phone_number == *phone_number {
                return Some(i);
            }
            i += 1;
        }
        proof {
            lemma_absent(self.attempts@, phone_number@);
        }
        None
    }

    /// When the attempt for `phone_number` was created, if one is on record.
    pub fn created_at(&self, phone_number: &str) -> (found: Option<u64>)
        ensures
            found == if self@.contains_key(phone_number@) {
                Some(self@[phone_number@])
            } else {
                None
            },
    {
        proof {
            use_type_invariant(self);
        }
        let key = phone_number.to_owned();
        match self.position(&key) {
            Some(i) => {
                proof {
                    lemma_entry(self.attempts@, i as int);
                }
                Some(self.attempts[i].created_at)
            },
            None => None,
        }
    }

    /// Whether an attempt for `phone_number` is on record and still within
    /// the admission window at `now`.
    pub fn has_live_attempt(&self, phone_number: &str, now: u64) -> (live: bool)
        ensures
            live == has_live(self@, phone_number@, now),
    {
        match self.created_at(phone_number) {
            Some(created_at) => attempt_is_live(created_at, now),
            None => false,
        }
    }

    /// Records an attempt for `phone_number` created at `now`, in place of
    /// the number's earlier attempt if there is one. Returns the number of
    /// records written, which is always one.
    pub fn insert_attempt(&mut self, phone_number: &str, now: u64) -> (rows: u64)
        ensures
            rows == 1,
            final(self)@ == old(self)@.insert(phone_number@, now),
    {
        proof {
            use_type_invariant(&*self);
        }
        let key = phone_number.to_owned();
        let slot = self.position(&key);
        let attempt = VerificationAttempt { phone_number: key, created_at: now };
        let mut attempts: Vec<VerificationAttempt> = Vec::new();
        std::mem::swap(&mut attempts, &mut self.attempts);
        match slot {
            Some(i) => {
                proof {
                    lemma_replace(attempts@, i as int, attempt);
                }
                attempts[i] = attempt;
            },
            None => {
                proof {
                    lemma_push(attempts@, attempt);
                }
                attempts.push(attempt);
            },
        }
        self.attempts = attempts;
        1
    }

    /// Removes the attempt for `phone_number`. Returns the number of records
    /// removed: one if the number had an attempt, else none.
    pub fn delete_attempt(&mut self, phone_number: &str) -> (rows: u64)
        ensures
            rows == if old(self)@.contains_key(phone_number@) { 1u64 } else { 0u64 },
            final(self)@ == old(self)@.remove(phone_number@),
    {
        proof {
            use_type_invariant(&*self);
        }
        let key = phone_number.to_owned();
        match self.position(&key) {
            Some(i) => {
                proof {
                    lemma_entry(self.attempts@, i as int);
                    lemma_remove(self.attempts@, i as int);
                }
                let mut attempts: Vec<VerificationAttempt> = Vec::new();
                std::mem::swap(&mut attempts, &mut self.attempts);
                let _ = attempts.remove(i);
                self.attempts = attempts;
                1
            },
            None => {
                assert(self@ =~= self@.remove(phone_number@));
                0
            },
        }
    }
}

} // verus!
