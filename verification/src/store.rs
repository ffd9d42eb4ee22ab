//! The stores that keep the records: at most one escrow for a buyer and an
//! intent, and at most one attestation for an authority and an intent.

use vstd::prelude::*;
use crate::attestation::{fits, initialize_attestation, Attestation, InitializeAttestation};
use crate::escrow::{create_escrow, CreateEscrow, EscrowAccount};
use crate::keys::{same_bytes, Pubkey};

verus! {

/// The escrow records, in the order of their creation.
pub struct EscrowStore {
    pub records: Vec<EscrowAccount>,
}

impl EscrowStore {
    /// Whether the record at `i` is the one of `buyer` for `intent_hash`.
    pub open spec fn has_at(&self, buyer: Pubkey, intent_hash: [u8; 32], i: int) -> bool {
        &&& 0 <= i < self.records@.len()
        &&& self.records@[i].buyer == buyer
        &&& self.records@[i].intent_hash == intent_hash
    }

    /// Whether the store holds a record of `buyer` for `intent_hash`.
    pub open spec fn holds(&self, buyer: Pubkey, intent_hash: [u8; 32]) -> bool {
        exists|i: int| self.has_at(buyer, intent_hash, i)
    }

    /// No two records are of one buyer for one intent, and each holds a
    /// positive amount.
    pub open spec fn wf(&self) -> bool {
        &&& forall|i: int, j: int|
            0 <= i < j < self.records@.len() ==> !(self.records@[i].buyer == self.records@[j].buyer
                && self.records@[i].intent_hash == self.records@[j].intent_hash)
        &&& forall|i: int| 0 <= i < self.records@.len() ==> (#[trigger] self.records@[i]).wf()
    }

    /// What a creation for `buyer` and `intent_hash` comes to: a duplicate
    /// where the store holds a record of this buyer for this intent, whatever
    /// else the creation asks for, and a success where it holds none.
    pub open spec fn creation(&self, buyer: Pubkey, intent_hash: [u8; 32]) -> Result<
        (),
        crate::escrow::HaleError,
    > {
        if self.holds(buyer, intent_hash) {
            Err(crate::escrow::HaleError::DuplicateRecord)
        } else {
            Ok(())
        }
    }

    /// A store without records.
    pub fn new() -> (s: EscrowStore)
        ensures
            s.wf(),
            s.records@.len() == 0,
    {
        EscrowStore { records: Vec::new() }
    }

    /// Where the record of `buyer` for `intent_hash` stands, if the store
    /// holds one.
    pub fn find(&self, buyer: &Pubkey, intent_hash: &[u8; 32]) -> (r: Option<usize>)
        ensures
            match r {
                Some(i) => self.has_at(*buyer, *intent_hash, i as int),
                None => !self.holds(*buyer, *intent_hash),
            },
    {
        let mut i: usize = 0;
        while i < self.records.len()
            invariant
                i <= self.records@.len(),
                forall|j: int| 0 <= j < i ==> !self.has_at(*buyer, *intent_hash, j),
            decreases self.records@.len() - i,
        {
            if self.records[i].buyer == *buyer && same_bytes(&self.records[i].intent_hash, intent_hash) {
                return Some(i);
            }
            i += 1;
        }
        None
    }

    /// Creates the escrow of `buyer` for `intent_hash` as a draft and keeps it
    /// as the last record. Refused as `DuplicateRecord`, with nothing changed,
    /// where the store holds a record of this buyer for this intent.
    pub fn create(
        &mut self,
        buyer: Pubkey,
        seller: Pubkey,
        intent_hash: [u8; 32],
        amount: u64,
        is_spl: bool,
        bump: u8,
    ) -> (r: Result<(), crate::escrow::HaleError>)
        requires
            old(self).wf(),
            amount > 0,
        ensures
            final(self).wf(),
            r == old(self).creation(buyer, intent_hash),
            r is Err ==> final(self).records@ == old(self).records@,
            r is Ok ==> final(self).records@ == old(self).records@.push(
                (CreateEscrow { escrow: None, buyer, seller, bump }).record(intent_hash, amount, is_spl),
            ),
    {
        let mut ctx = CreateEscrow {
            escrow: match self.find(&buyer, &intent_hash) {
                Some(i) => Some(self.records[i]),
                None => None,
            },
            buyer,
            seller,
            bump,
        };
        match create_escrow(&mut ctx, intent_hash, amount, is_spl) {
            Err(e) => Err(e),
            Ok(()) => {
                let record = ctx.escrow.unwrap();
                proof {
                    assert forall|i: int| 0 <= i < self.records@.len() implies !(
                    self.records@[i].buyer == record.buyer && self.records@[i].intent_hash
                        == record.intent_hash) by {
                        assert(!self.has_at(buyer, intent_hash, i));
                    }
                }
                self.records.push(record);
                Ok(())
            },
        }
    }

    /// Writes back the record at `i` after an operation on it: the stored
    /// record as it was, in the status it had or one step on from it.
    pub fn put(&mut self, i: usize, record: EscrowAccount)
        requires
            old(self).wf(),
            i < old(self).records@.len(),
            record == old(self).records@[i as int].with_status(record.status),
            old(self).records@[i as int].status == record.status || old(
                self,
            ).records@[i as int].status.steps_to(record.status),
        ensures
            final(self).wf(),
            final(self).records@ == old(self).records@.update(i as int, record),
    {
        self.records.set(i, record);
    }
}

/// Of two creations for one buyer and intent, whichever comes first succeeds
/// and the other is refused as a duplicate, whatever seller, amount and kind
/// of asset either asks for: where the store holds no record for them, the
/// creation succeeds, and once its record is kept, every creation for them is
/// a duplicate.
pub proof fn lemma_one_escrow_per_buyer_and_intent(
    before: EscrowStore,
    after: EscrowStore,
    record: EscrowAccount,
)
    requires
        !before.holds(record.buyer, record.intent_hash),
        after.records@ == before.records@.push(record),
    ensures
        before.creation(record.buyer, record.intent_hash) is Ok,
        after.creation(record.buyer, record.intent_hash) == Err::<(), crate::escrow::HaleError>(
            crate::escrow::HaleError::DuplicateRecord,
        ),
{
    assert(after.has_at(record.buyer, record.intent_hash, before.records@.len() as int));
}

/// The attestation records, in the order of their creation.
pub struct AttestationStore {
    pub records: Vec<Attestation>,
}

impl AttestationStore {
    /// Whether the record at `i` is the one of `authority` for `intent_hash`.
    pub open spec fn has_at(&self, authority: Pubkey, intent_hash: [u8; 32], i: int) -> bool {
        &&& 0 <= i < self.records@.len()
        &&& self.records@[i].authority == authority
        &&& self.records@[i].intent_hash == intent_hash
    }

    /// Whether the store holds a record of `authority` for `intent_hash`.
    pub open spec fn holds(&self, authority: Pubkey, intent_hash: [u8; 32]) -> bool {
        exists|i: int| self.has_at(authority, intent_hash, i)
    }

    /// No two records are of one authority for one intent, and each is valid.
    pub open spec fn wf(&self) -> bool {
        &&& forall|i: int, j: int|
            0 <= i < j < self.records@.len() ==> !(self.records@[i].authority
                == self.records@[j].authority && self.records@[i].intent_hash
                == self.records@[j].intent_hash)
        &&& forall|i: int| 0 <= i < self.records@.len() ==> (#[trigger] self.records@[i]).wf()
    }

    /// What an initialisation for `authority` and `intent_hash` comes to: a
    /// duplicate where the store holds a record of this authority for this
    /// intent, and a success where it holds none.
    pub open spec fn creation(&self, authority: Pubkey, intent_hash: [u8; 32]) -> Result<
        (),
        crate::attestation::HaleError,
    > {
        if self.holds(authority, intent_hash) {
            Err(crate::attestation::HaleError::DuplicateRecord)
        } else {
            Ok(())
        }
    }

    /// A store without records.
    pub fn new() -> (s: AttestationStore)
        ensures
            s.wf(),
            s.records@.len() == 0,
    {
        AttestationStore { records: Vec::new() }
    }

    /// Where the record of `authority` for `intent_hash` stands, if the store
    /// holds one.
    pub fn find(&self, authority: &Pubkey, intent_hash: &[u8; 32]) -> (r: Option<usize>)
        ensures
            match r {
                Some(i) => self.has_at(*authority, *intent_hash, i as int),
                None => !self.holds(*authority, *intent_hash),
            },
    {
        let mut i: usize = 0;
        while i < self.records.len()
            invariant
                i <= self.records@.len(),
                forall|j: int| 0 <= j < i ==> !self.has_at(*authority, *intent_hash, j),
            decreases self.records@.len() - i,
        {
            if self.records[i].authority == *authority && same_bytes(
                &self.records[i].intent_hash,
                intent_hash,
            ) {
                return Some(i);
            }
            i += 1;
        }
        None
    }

    /// Creates the attestation of `authority` for `intent_hash` as a draft and
    /// keeps it as the last record. Refused as `DuplicateRecord`, with nothing
    /// changed, where the store holds a record of this authority for this
    /// intent.
    pub fn initialize(
        &mut self,
        authority: Pubkey,
        intent_hash: [u8; 32],
        metadata_uri: String,
        bump: u8,
    ) -> (r: Result<(), crate::attestation::HaleError>)
        requires
            old(self).wf(),
            fits(metadata_uri),
        ensures
            final(self).wf(),
            r == old(self).creation(authority, intent_hash),
            r is Err ==> final(self).records@ == old(self).records@,
            r is Ok ==> final(self).records@ == old(self).records@.push(
                (InitializeAttestation { attestation: None, authority, bump }).record(
                    intent_hash,
                    metadata_uri,
                ),
            ),
    {
        if self.find(&authority, &intent_hash).is_some() {
            return Err(crate::attestation::HaleError::DuplicateRecord);
        }
        let mut ctx = InitializeAttestation { attestation: None, authority, bump };
        match initialize_attestation(&mut ctx, intent_hash, metadata_uri) {
            Err(e) => Err(e),
            Ok(()) => {
                let record = ctx.attestation.unwrap();
                proof {
                    assert forall|i: int| 0 <= i < self.records@.len() implies !(
                    self.records@[i].authority == record.authority && self.records@[i].intent_hash
                        == record.intent_hash) by {
                        assert(!self.has_at(authority, intent_hash, i));
                    }
                }
                self.records.push(record);
                Ok(())
            },
        }
    }

    /// Writes back the record at `i` after an operation on it: a valid record
    /// with the terms of the stored one, in the status it had or one step on
    /// from it, and with the outcome and report hashes that the stored one
    /// holds, if it holds any.
    pub fn put(&mut self, i: usize, record: Attestation)
        requires
            old(self).wf(),
            i < old(self).records@.len(),
            record.wf(),
            record.same_terms(old(self).records@[i as int]),
            old(self).records@[i as int].status == record.status || old(
                self,
            ).records@[i as int].status.steps_to(record.status),
            old(self).records@[i as int].outcome_hash is Some ==> record.outcome_hash == old(
                self,
            ).records@[i as int].outcome_hash,
            old(self).records@[i as int].report_hash is Some ==> record.report_hash == old(
                self,
            ).records@[i as int].report_hash,
        ensures
            final(self).wf(),
            final(self).records@ == old(self).records@.update(i as int, record),
    {
        self.records.set(i, record);
    }
}

/// Of two initialisations for one authority and intent, whichever comes first
/// succeeds and the other is refused as a duplicate: where the store holds no
/// record for them, the initialisation succeeds, and once its record is kept,
/// every initialisation for them is a duplicate.
pub proof fn lemma_one_attestation_per_authority_and_intent(
    before: AttestationStore,
    after: AttestationStore,
    record: Attestation,
)
    requires
        !before.holds(record.authority, record.intent_hash),
        after.records@ == before.records@.push(record),
    ensures
        before.creation(record.authority, record.intent_hash) is Ok,
        after.creation(record.authority, record.intent_hash) == Err::<
            (),
            crate::attestation::HaleError,
        >(crate::attestation::HaleError::DuplicateRecord),
{
    assert(after.has_at(record.authority, record.intent_hash, before.records@.len() as int));
}

} // verus!
