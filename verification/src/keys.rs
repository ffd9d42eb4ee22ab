//! Account identities and the addresses derived from them.

use vstd::prelude::*;

verus! {

/// A 32-byte account identity.
#[derive(Clone, Copy, Debug)]
pub struct Pubkey {
    pub bytes: [u8; 32],
}

impl View for Pubkey {
    type V = Seq<u8>;

    open spec fn view(&self) -> Seq<u8> {
        self.bytes@
    }
}

/// A key is its bytes: two keys with the same view are the same key.
pub proof fn lemma_key_is_its_bytes(a: Pubkey, b: Pubkey)
    ensures
        (a@ == b@) == (a == b),
{
    assert(a@ == b@ ==> a.bytes =~= b.bytes);
}

/// Whether two 32-byte values are the same.
pub fn same_bytes(a: &[u8; 32], b: &[u8; 32]) -> (r: bool)
    ensures
        r == (*a == *b),
{
    let mut i: usize = 0;
    while i < 32
        invariant
            i <= 32,
            forall|j: int| 0 <= j < i ==> a[j] == b[j],
        decreases 32 - i,
    {
        if a[i] != b[i] {
            return false;
        }
        i += 1;
    }
    assert(*a =~= *b);
    true
}

impl PartialEq for Pubkey {
    fn eq(&self, other: &Pubkey) -> (r: bool) {
        same_bytes(&self.bytes, &other.bytes)
    }
}

impl Eq for Pubkey {
}

impl vstd::std_specs::cmp::PartialEqSpecImpl for Pubkey {
    open spec fn obeys_eq_spec() -> bool {
        true
    }

    open spec fn eq_spec(&self, other: &Pubkey) -> bool {
        *self == *other
    }
}

/// The address and bump seed that the ledger derives for a program from a list
/// of seeds, or `None` where it derives none.
pub uninterp spec fn program_address(seeds: Seq<Seq<u8>>, program_id: Seq<u8>) -> Option<(Seq<u8>, u8)>;

/// Calls `Pubkey::try_find_program_address` of `anchor_lang`. The contract only
/// gives the outcome its name: the same seeds and program always derive the
/// same address and bump seed, or none.
#[verifier::external_body]
fn find_program_address(seeds: &Vec<Vec<u8>>, program_id: &Pubkey) -> (r: Option<(Pubkey, u8)>)
    ensures
        match r {
            Some((key, bump)) => program_address(seeds.deep_view(), program_id@) == Some((key@, bump)),
            None => program_address(seeds.deep_view(), program_id@) is None,
        },
{
    let parts: Vec<&[u8]> = seeds.iter().map(|s| s.as_slice()).collect();
    let id = anchor_lang::prelude::Pubkey::new_from_array(program_id.bytes);
    anchor_lang::prelude::Pubkey::try_find_program_address(&parts, &id)
        .map(|(key, bump)| (Pubkey { bytes: key.to_bytes() }, bump))
}

/// The bytes of the word `escrow`, the first seed of an escrow's identity.
pub open spec fn escrow_tag() -> Seq<u8> {
    seq![101u8, 115u8, 99u8, 114u8, 111u8, 119u8]
}

/// The bytes of the word `attestation`, the first seed of an attestation's
/// identity.
pub open spec fn attestation_tag() -> Seq<u8> {
    seq![97u8, 116u8, 116u8, 101u8, 115u8, 116u8, 97u8, 116u8, 105u8, 111u8, 110u8]
}

/// The seeds of a record's identity: its kind, its owner and its intent.
pub open spec fn record_seeds(tag: Seq<u8>, owner: Seq<u8>, intent_hash: Seq<u8>) -> Seq<Seq<u8>> {
    seq![tag, owner, intent_hash]
}

fn bytes_of(a: &[u8; 32]) -> (r: Vec<u8>)
    ensures
        r@ == a@,
{
    let mut r: Vec<u8> = Vec::new();
    let mut i: usize = 0;
    while i < 32
        invariant
            i <= 32,
            r@ == a@.subrange(0, i as int),
        decreases 32 - i,
    {
        r.push(a[i]);
        assert(r@ =~= a@.subrange(0, i + 1));
        i += 1;
    }
    assert(r@ =~= a@);
    r
}

proof fn lemma_bytes_deep_view(v: Vec<u8>)
    ensures
        v.deep_view() == v@,
{
    assert(v.deep_view() =~= v@);
}

fn seeds_of(tag: Vec<u8>, owner: &Pubkey, intent_hash: &[u8; 32]) -> (r: Vec<Vec<u8>>)
    ensures
        r.deep_view() == record_seeds(tag@, owner@, intent_hash@),
{
    let mut r: Vec<Vec<u8>> = Vec::new();
    r.push(tag);
    r.push(bytes_of(&owner.bytes));
    r.push(bytes_of(intent_hash));
    proof {
        lemma_bytes_deep_view(r@[0]);
        lemma_bytes_deep_view(r@[1]);
        lemma_bytes_deep_view(r@[2]);
        assert(r.deep_view() =~= record_seeds(tag@, owner@, intent_hash@));
    }
    r
}

/// The seeds of the identity of the escrow of `buyer` for `intent_hash`.
pub fn escrow_seeds(buyer: &Pubkey, intent_hash: &[u8; 32]) -> (r: Vec<Vec<u8>>)
    ensures
        r.deep_view() == record_seeds(escrow_tag(), buyer@, intent_hash@),
{
    let tag: Vec<u8> = vec![101u8, 115u8, 99u8, 114u8, 111u8, 119u8];
    assert(tag@ =~= escrow_tag());
    seeds_of(tag, buyer, intent_hash)
}

/// The seeds of the identity of the attestation of `authority` for
/// `intent_hash`.
pub fn attestation_seeds(authority: &Pubkey, intent_hash: &[u8; 32]) -> (r: Vec<Vec<u8>>)
    ensures
        r.deep_view() == record_seeds(attestation_tag(), authority@, intent_hash@),
{
    let tag: Vec<u8> = vec![97u8, 116u8, 116u8, 101u8, 115u8, 116u8, 97u8, 116u8, 105u8, 111u8, 110u8];
    assert(tag@ =~= attestation_tag());
    seeds_of(tag, authority, intent_hash)
}

/// The seeds with which an escrow authorises a payment out of its vault: those
/// of its identity, and its bump seed.
pub fn signer_seeds(buyer: &Pubkey, intent_hash: &[u8; 32], bump: u8) -> (r: Vec<Vec<u8>>)
    ensures
        r.deep_view() == record_seeds(escrow_tag(), buyer@, intent_hash@).push(seq![bump]),
{
    let mut r = escrow_seeds(buyer, intent_hash);
    let ghost before = r.deep_view();
    let last: Vec<u8> = vec![bump];
    assert(last@ =~= seq![bump]);
    r.push(last);
    proof {
        lemma_bytes_deep_view(last);
        assert(r.deep_view() =~= before.push(seq![bump]));
    }
    r
}

/// The address and bump seed that `program_id` derives for the escrow of
/// `buyer` for `intent_hash`, or `None` where it derives none.
pub fn escrow_address(program_id: &Pubkey, buyer: &Pubkey, intent_hash: &[u8; 32]) -> (r: Option<(Pubkey, u8)>)
    ensures
        match r {
            Some((key, bump)) => program_address(
                record_seeds(escrow_tag(), buyer@, intent_hash@),
                program_id@,
            ) == Some((key@, bump)),
            None => program_address(
                record_seeds(escrow_tag(), buyer@, intent_hash@),
                program_id@,
            ) is None,
        },
{
    let seeds = escrow_seeds(buyer, intent_hash);
    find_program_address(&seeds, program_id)
}

/// The address and bump seed that `program_id` derives for the attestation of
/// `authority` for `intent_hash`, or `None` where it derives none.
pub fn attestation_address(program_id: &Pubkey, authority: &Pubkey, intent_hash: &[u8; 32]) -> (r: Option<(Pubkey, u8)>)
    ensures
        match r {
            Some((key, bump)) => program_address(
                record_seeds(attestation_tag(), authority@, intent_hash@),
                program_id@,
            ) == Some((key@, bump)),
            None => program_address(
                record_seeds(attestation_tag(), authority@, intent_hash@),
                program_id@,
            ) is None,
        },
{
    let seeds = attestation_seeds(authority, intent_hash);
    find_program_address(&seeds, program_id)
}

/// Whether `key` and `bump` are the identity that was derived for a record:
/// they are where an identity was derived and it is this address with this
/// bump seed.
pub fn is_identity(derived: &Option<(Pubkey, u8)>, key: &Pubkey, bump: u8) -> (r: bool)
    ensures
        r == (*derived == Some((*key, bump))),
{
    match derived {
        Some((k, b)) => *k == *key && *b == bump,
        None => false,
    }
}

} // verus!
