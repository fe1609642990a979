//! Keyed storage of commitments, one per player and nonce.
use vstd::prelude::*;
use crate::protocol::{bytes32_eq, commit, commit_result};
use crate::state::{Commitment, SlotMachineError};

verus! {

/// Whether `c` is stored under the key `(player, nonce)`.
pub open spec fn has_key(c: Commitment, player: Seq<u8>, nonce: u64) -> bool {
    c.player@ == player && c.nonce == nonce
}

/// Whether `s` holds an unrevealed commitment under `(player, nonce)`.
pub open spec fn holds_live(s: Seq<Commitment>, player: Seq<u8>, nonce: u64) -> bool {
    exists|i: int| 0 <= i < s.len() && has_key(#[trigger] s[i], player, nonce) && !s[i].revealed
}

/// Whether `s` holds any commitment under `(player, nonce)`.
pub open spec fn holds_key(s: Seq<Commitment>, player: Seq<u8>, nonce: u64) -> bool {
    exists|i: int| 0 <= i < s.len() && has_key(#[trigger] s[i], player, nonce)
}

/// The commitments of the store, at most one per key.
pub struct CommitmentStore {
    entries: Vec<Commitment>,
}

impl View for CommitmentStore {
    type V = Seq<Commitment>;

    closed spec fn view(&self) -> Seq<Commitment> {
        self.entries@
    }
}

impl CommitmentStore {
    /// No two commitments share a key.
    pub closed spec fn wf(&self) -> bool {
        forall|i: int, j: int|
            0 <= i < j < self.entries@.len() ==> !has_key(
                #[trigger] self.entries@[i],
                self.entries@[j].player@,
                #[trigger] self.entries@[j].nonce,
            )
    }

    pub fn new() -> (r: Self)
        ensures
            r.wf(),
            r@ == Seq::<Commitment>::empty(),
    {
        CommitmentStore { entries: Vec::new() }
    }

    /// The position of the commitment under `(player, nonce)`, if any.
    fn find(&self, player: &[u8; 32], nonce: u64) -> (r: Option<usize>)
        ensures
            r matches Some(i) ==> i < self@.len() && has_key(self@[i as int], player@, nonce),
            r is None ==> !holds_key(self@, player@, nonce),
    {
        let mut i: usize = 0;
        while i < self.entries.len()
            invariant
                i <= self.entries@.len(),
                forall|j: int| 0 <= j < i ==> !has_key(#[trigger] self.entries@[j], player@, nonce),
            decreases self.entries@.len() - i,
        {
            if self.entries[i].nonce == nonce && bytes32_eq(&self.entries[i].player, player) {
                return Some(i);
            }
            i = i + 1;
        }
        None
    }

    /// The commitment under `(player, nonce)`.
    pub fn get(&self, player: &[u8; 32], nonce: u64) -> (r: Result<Commitment, SlotMachineError>)
        requires
            self.wf(),
        ensures
            r matches Ok(c) ==> self@.contains(c) && has_key(c, player@, nonce),
            r is Err ==> r == Err::<Commitment, SlotMachineError>(
                SlotMachineError::CommitmentNotFound,
            ),
            r is Ok <==> holds_key(self@, player@, nonce),
    {
        match self.find(player, nonce) {
            Some(i) => Ok(self.entries[i]),
            None => Err(SlotMachineError::CommitmentNotFound),
        }
    }

    /// Opens a commitment and stores it. A live commitment under the same key
    /// refuses it; a revealed one is replaced.
    pub fn open(
        &mut self,
        player: [u8; 32],
        commitment_hash: [u8; 32],
        bet_amount: u64,
        nonce: u64,
        now: i64,
        bump: u8,
    ) -> (r: Result<Commitment, SlotMachineError>)
        requires
            old(self).wf(),
        ensures
            final(self).wf(),
            commit_result(player, commitment_hash, bet_amount, nonce, now, bump) matches Err(e)
                ==> r == Err::<Commitment, SlotMachineError>(e),
            commit_result(player, commitment_hash, bet_amount, nonce, now, bump) is Ok
                ==> if holds_live(old(self)@, player@, nonce) {
                r == Err::<Commitment, SlotMachineError>(SlotMachineError::CommitmentInUse)
            } else {
                r == commit_result(player, commitment_hash, bet_amount, nonce, now, bump)
            },
            r is Err ==> final(self)@ == old(self)@,
            r matches Ok(c) ==> {
                &&& final(self)@.contains(c)
                &&& forall|d: Commitment|
                    !has_key(d, player@, nonce) ==> (final(self)@.contains(d) <==> old(
                        self,
                    )@.contains(d))
                &&& forall|d: Commitment|
                    #![trigger final(self)@.contains(d)]
                    has_key(d, player@, nonce) && final(self)@.contains(d) ==> d == c
            },
    {
        let c = match commit(player, commitment_hash, bet_amount, nonce, now, bump) {
            Ok(c) => c,
            Err(e) => return Err(e),
        };
        match self.find(&player, nonce) {
            Some(i) => {
                if !self.entries[i].revealed {
                    return Err(SlotMachineError::CommitmentInUse);
                }
                let ghost before = self@;
                self.entries.set(i, c);
                proof {
                    assert(self@ == before.update(i as int, c));
                    assert(self@[i as int] == c);
                    assert forall|d: Commitment|
                        !has_key(d, player@, nonce) implies (self@.contains(d) <==> before.contains(
                            d,
                        )) by {
                        if self@.contains(d) {
                            let k = choose|k: int| 0 <= k < self@.len() && self@[k] == d;
                            assert(before[k] == d);
                        }
                        if before.contains(d) {
                            let k = choose|k: int| 0 <= k < before.len() && before[k] == d;
                            assert(self@[k] == d);
                        }
                    }
                    assert forall|d: Commitment|
                        #![trigger self@.contains(d)]
                        has_key(d, player@, nonce) && self@.contains(d) implies d == c by {
                        let k = choose|k: int| 0 <= k < self@.len() && self@[k] == d;
                        if k != i {
                            assert(before[k] == d);
                            if k < i {
                                assert(!has_key(before[k], before[i as int].player@, before[i as int].nonce));
                            } else {
                                assert(!has_key(before[i as int], before[k].player@, before[k].nonce));
                            }
                        }
                    }
                }
                Ok(c)
            },
            None => {
                let ghost before = self@;
                self.entries.push(c);
                proof {
                    assert(self@ == before.push(c));
                    assert(self@[before.len() as int] == c);
                    assert forall|d: Commitment|
                        !has_key(d, player@, nonce) implies (self@.contains(d) <==> before.contains(
                            d,
                        )) by {
                        if self@.contains(d) {
                            let k = choose|k: int| 0 <= k < self@.len() && self@[k] == d;
                            assert(before[k] == d);
                        }
                        if before.contains(d) {
                            let k = choose|k: int| 0 <= k < before.len() && before[k] == d;
                            assert(self@[k] == d);
                        }
                    }
                    assert forall|d: Commitment|
                        #![trigger self@.contains(d)]
                        has_key(d, player@, nonce) && self@.contains(d) implies d == c by {
                        let k = choose|k: int| 0 <= k < self@.len() && self@[k] == d;
                        if k < before.len() {
                            assert(before[k] == d);
                            assert(holds_key(before, player@, nonce));
                        }
                    }
                    assert forall|a: int, b: int|
                        0 <= a < b < self.entries@.len() implies !has_key(
                            #[trigger] self.entries@[a],
                            self.entries@[b].player@,
                            #[trigger] self.entries@[b].nonce,
                        ) by {
                        if b == before.len() {
                            assert(!has_key(before[a], player@, nonce));
                        }
                    }
                }
                Ok(c)
            },
        }
    }
    /// Writes `c` back over the commitment stored under its key.
    pub fn replace(&mut self, c: Commitment) -> (r: Result<(), SlotMachineError>)
        requires
            old(self).wf(),
        ensures
            final(self).wf(),
            r is Ok <==> holds_key(old(self)@, c.player@, c.nonce),
            r is Err ==> r == Err::<(), SlotMachineError>(SlotMachineError::CommitmentNotFound)
                && final(self)@ == old(self)@,
            final(self)@.len() == old(self)@.len(),
            forall|i: int|
                0 <= i < old(self)@.len() ==> #[trigger] final(self)@[i] == if has_key(
                    old(self)@[i],
                    c.player@,
                    c.nonce,
                ) {
                    c
                } else {
                    old(self)@[i]
                },
    {
        match self.find(&c.player, c.nonce) {
            Some(i) => {
                let ghost before = self@;
                self.entries.set(i, c);
                proof {
                    assert forall|k: int| 0 <= k < before.len() && k != i implies !has_key(
                        before[k],
                        c.player@,
                        c.nonce,
                    ) by {
                        if k < i {
                            assert(!has_key(before[k], before[i as int].player@, before[i as int].nonce));
                        } else {
                            assert(!has_key(before[i as int], before[k].player@, before[k].nonce));
                        }
                    }
                }
                Ok(())
            },
            None => Err(SlotMachineError::CommitmentNotFound),
        }
    }
}

} // verus!
