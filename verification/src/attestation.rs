//! The attestation state machine: an authority's record of the outcome of an
//! intent, sealed once and open to audit and challenge.

use vstd::prelude::*;
use crate::keys::{attestation_address, attestation_tag, is_identity, lemma_key_is_its_bytes, program_address, record_seeds, Pubkey};

verus! {

/// The lifecycle stage of an attestation.
#[derive(Clone, Copy, Debug, PartialEq, Eq, Structural)]
pub enum AttestationStatus {
    Draft,
    Sealed,
    Audited,
    Disputed,
}

impl AttestationStatus {
    /// The transitions that an attestation may make: a draft is sealed, a
    /// sealed outcome is audited or disputed, and an audited one is disputed.
    pub open spec fn steps_to(self, next: AttestationStatus) -> bool {
        ||| self == AttestationStatus::Draft && next == AttestationStatus::Sealed
        ||| self == AttestationStatus::Sealed && next == AttestationStatus::Audited
        ||| self == AttestationStatus::Sealed && next == AttestationStatus::Disputed
        ||| self == AttestationStatus::Audited && next == AttestationStatus::Disputed
    }
}

/// Why an attestation operation was refused.
#[derive(Clone, Copy, Debug, PartialEq, Eq, Structural)]
pub enum HaleError {
    /// A record already exists for this authority and intent.
    DuplicateRecord,
    /// The attestation is not in the status that the operation needs.
    InvalidStatus,
    /// The attestation is not in a sealable state.
    InvalidStatusForSeal,
    /// The attestation is not in a state that can be challenged.
    InvalidStatusForChallenge,
    /// The caller is not the record's authority.
    Unauthorized,
}

/// The attestation record.
#[derive(Clone, Debug, PartialEq, Eq)]
pub struct Attestation {
    pub authority: Pubkey,
    pub intent_hash: [u8; 32],
    pub metadata_uri: String,
    pub status: AttestationStatus,
    pub outcome_hash: Option<[u8; 32]>,
    pub report_hash: Option<[u8; 32]>,
    pub evidence_uri: Option<String>,
    pub bump: u8,
}

impl Attestation {
    /// Whether two records agree in what is fixed at creation: the authority,
    /// the intent, the metadata and the bump seed.
    pub open spec fn same_terms(&self, other: Attestation) -> bool {
        &&& self.authority == other.authority
        &&& self.intent_hash == other.intent_hash
        &&& self.metadata_uri == other.metadata_uri
        &&& self.bump == other.bump
    }

    /// The URIs are short enough to be kept, and the record's status says of
    /// its optional fields: the outcome is there from sealing on, the report only once audited or disputed, the
    /// evidence only once disputed, and a dispute has a report or evidence.
    pub open spec fn wf(&self) -> bool {
        &&& fits(self.metadata_uri)
        &&& (self.evidence_uri is Some ==> fits(self.evidence_uri->Some_0))
        &&& match self.status {
            AttestationStatus::Draft => self.outcome_hash is None && self.report_hash is None
                && self.evidence_uri is None,
            AttestationStatus::Sealed => self.outcome_hash is Some && self.report_hash is None
                && self.evidence_uri is None,
            AttestationStatus::Audited => self.outcome_hash is Some && self.report_hash is Some
                && self.evidence_uri is None,
            AttestationStatus::Disputed => self.outcome_hash is Some && (self.report_hash is Some
                || self.evidence_uri is Some),
        }
    }
}

/// Whether `key` is the identity of `attestation` under `program_id`: the
/// address that the program derives for the record's authority and intent,
/// with the record's bump seed.
pub fn holds_identity(attestation: &Attestation, program_id: &Pubkey, key: &Pubkey) -> (r: bool)
    ensures
        r == (program_address(
            record_seeds(attestation_tag(), attestation.authority@, attestation.intent_hash@),
            program_id@,
        ) == Some((key@, attestation.bump))),
{
    let derived = attestation_address(program_id, &attestation.authority, &attestation.intent_hash);
    proof {
        if derived is Some {
            lemma_key_is_its_bytes(derived->Some_0.0, *key);
        }
    }
    is_identity(&derived, key, attestation.bump)
}

/// The most bytes that a metadata or evidence URI may take in a record.
pub const MAX_URI_LEN: usize = 200;

/// A URI that is short enough to be kept in a record: its UTF-8 encoding
/// takes at most `MAX_URI_LEN` bytes.
pub open spec fn fits(uri: String) -> bool {
    vstd::utf8::encode_utf8(uri@).len() <= MAX_URI_LEN
}

/// Whether a URI is short enough to be kept in a record.
pub fn uri_fits(uri: &String) -> (r: bool)
    ensures
        r == fits(*uri),
{
    uri.as_str().as_bytes().len() <= MAX_URI_LEN
}

/// Told when an attestation is sealed.
#[derive(Clone, Debug, PartialEq, Eq)]
pub struct AttestationSealed {
    pub authority: Pubkey,
    pub intent_hash: [u8; 32],
    pub outcome_hash: [u8; 32],
}

/// Told when an attestation is audited.
#[derive(Clone, Debug, PartialEq, Eq)]
pub struct AttestationAudited {
    pub authority: Pubkey,
    pub auditor: Pubkey,
    pub intent_hash: [u8; 32],
    pub report_hash: [u8; 32],
    pub is_valid: bool,
}

/// Told when an attestation is challenged.
#[derive(Clone, Debug, PartialEq, Eq)]
pub struct AttestationChallenged {
    pub authority: Pubkey,
    pub challenger: Pubkey,
    pub intent_hash: [u8; 32],
    pub evidence_uri: String,
}

/// The outcome of an operation that is refused for `refusal`, if for anything,
/// and else tells `event`.
pub open spec fn outcome<E>(refusal: Option<HaleError>, event: E) -> Result<E, HaleError> {
    match refusal {
        Some(e) => Err(e),
        None => Ok(event),
    }
}

/// What `initialize_attestation` works on: the slot for the record of this
/// authority and intent, vacant or not, the calling authority, and the slot's
/// bump seed.
#[derive(Clone, Debug, PartialEq, Eq)]
pub struct InitializeAttestation {
    pub attestation: Option<Attestation>,
    pub authority: Pubkey,
    pub bump: u8,
}

impl InitializeAttestation {
    /// The first reason, if any, for which the initialisation is refused.
    pub open spec fn refusal(&self) -> Option<HaleError> {
        if self.attestation is Some {
            Some(HaleError::DuplicateRecord)
        } else {
            None
        }
    }

    /// The record that an initialisation writes.
    pub open spec fn record(&self, intent_hash: [u8; 32], metadata_uri: String) -> Attestation {
        Attestation {
            authority: self.authority,
            intent_hash,
            metadata_uri,
            status: AttestationStatus::Draft,
            outcome_hash: None,
            report_hash: None,
            evidence_uri: None,
            bump: self.bump,
        }
    }

    /// The slot and caller after an initialisation that is not refused.
    pub open spec fn initialized(&self, intent_hash: [u8; 32], metadata_uri: String) -> InitializeAttestation {
        InitializeAttestation { attestation: Some(self.record(intent_hash, metadata_uri)), ..*self }
    }
}

/// Creates the record in its slot as a draft, with the given intent and
/// metadata, of at most `MAX_URI_LEN` bytes, and nothing sealed, audited or
/// challenged. Refused as
/// `DuplicateRecord` where the slot already holds a record, which then stays
/// as it is.
pub fn initialize_attestation(ctx: &mut InitializeAttestation, intent_hash: [u8; 32], metadata_uri: String) -> (r: Result<(), HaleError>)
    requires
        fits(metadata_uri),
    ensures
        r == outcome(old(ctx).refusal(), ()),
        r is Err ==> *final(ctx) == *old(ctx),
        r is Ok ==> *final(ctx) == old(ctx).initialized(intent_hash, metadata_uri),
        r is Ok ==> final(ctx).attestation->Some_0.wf(),
{
    if ctx.attestation.is_some() {
        return Err(HaleError::DuplicateRecord);
    }
    ctx.attestation = Some(
        Attestation {
            authority: ctx.authority,
            intent_hash,
            metadata_uri,
            status: AttestationStatus::Draft,
            outcome_hash: None,
            report_hash: None,
            evidence_uri: None,
            bump: ctx.bump,
        },
    );
    Ok(())
}

/// What `seal_attestation` works on: the record and the calling authority.
#[derive(Clone, Debug, PartialEq, Eq)]
pub struct SealAttestation {
    pub attestation: Attestation,
    pub authority: Pubkey,
}

impl SealAttestation {
    /// The first reason, if any, for which the sealing is refused.
    pub open spec fn refusal(&self) -> Option<HaleError> {
        if self.authority != self.attestation.authority {
            Some(HaleError::Unauthorized)
        } else if self.attestation.status != AttestationStatus::Draft {
            Some(HaleError::InvalidStatusForSeal)
        } else {
            None
        }
    }

    /// The record and caller after a sealing that is not refused.
    pub open spec fn sealed(&self, outcome_hash: [u8; 32]) -> SealAttestation {
        SealAttestation {
            attestation: Attestation {
                outcome_hash: Some(outcome_hash),
                status: AttestationStatus::Sealed,
                ..self.attestation
            },
            ..*self
        }
    }

    /// What a sealing that is not refused tells.
    pub open spec fn event(&self, outcome_hash: [u8; 32]) -> AttestationSealed {
        AttestationSealed {
            authority: self.attestation.authority,
            intent_hash: self.attestation.intent_hash,
            outcome_hash,
        }
    }
}

/// Seals the outcome of a draft: records the outcome hash, marks the record
/// sealed and tells so. Refused, with nothing changed, as `Unauthorized` where
/// the caller is not the record's authority, else as `InvalidStatusForSeal`
/// where the record is no draft, so that an outcome is sealed once only.
pub fn seal_attestation(ctx: &mut SealAttestation, outcome_hash: [u8; 32]) -> (r: Result<AttestationSealed, HaleError>)
    ensures
        r == outcome(old(ctx).refusal(), old(ctx).event(outcome_hash)),
        r is Err ==> *final(ctx) == *old(ctx),
        r is Ok ==> *final(ctx) == old(ctx).sealed(outcome_hash),
        old(ctx).attestation.wf() ==> final(ctx).attestation.wf(),
        final(ctx).attestation.status == old(ctx).attestation.status
            || old(ctx).attestation.status.steps_to(final(ctx).attestation.status),
        final(ctx).attestation.same_terms(old(ctx).attestation),
{
    if ctx.authority != ctx.attestation.authority {
        return Err(HaleError::Unauthorized);
    }
    if ctx.attestation.status != AttestationStatus::Draft {
        return Err(HaleError::InvalidStatusForSeal);
    }
    ctx.attestation.outcome_hash = Some(outcome_hash);
    ctx.attestation.status = AttestationStatus::Sealed;
    Ok(
        AttestationSealed {
            authority: ctx.attestation.authority,
            intent_hash: ctx.attestation.intent_hash,
            outcome_hash,
        },
    )
}

/// What `audit_attestation` works on: the record and the calling auditor.
#[derive(Clone, Debug, PartialEq, Eq)]
pub struct AuditAttestation {
    pub attestation: Attestation,
    pub auditor: Pubkey,
}

/// The status that an audit with the given verdict leaves.
pub open spec fn audited_status(is_valid: bool) -> AttestationStatus {
    if is_valid {
        AttestationStatus::Audited
    } else {
        AttestationStatus::Disputed
    }
}

impl AuditAttestation {
    /// The first reason, if any, for which the audit is refused.
    pub open spec fn refusal(&self) -> Option<HaleError> {
        if self.attestation.status != AttestationStatus::Sealed {
            Some(HaleError::InvalidStatus)
        } else {
            None
        }
    }

    /// The record and caller after an audit that is not refused.
    pub open spec fn audited(&self, report_hash: [u8; 32], is_valid: bool) -> AuditAttestation {
        AuditAttestation {
            attestation: Attestation {
                status: audited_status(is_valid),
                report_hash: Some(report_hash),
                ..self.attestation
            },
            ..*self
        }
    }

    /// What an audit that is not refused tells.
    pub open spec fn event(&self, report_hash: [u8; 32], is_valid: bool) -> AttestationAudited {
        AttestationAudited {
            authority: self.attestation.authority,
            auditor: self.auditor,
            intent_hash: self.attestation.intent_hash,
            report_hash,
            is_valid,
        }
    }
}

/// Audits a sealed outcome, whoever calls: records the report hash, marks the
/// record audited where the verdict is valid and disputed where it is not, and
/// tells so. Refused, with nothing changed, as `InvalidStatus` where the
/// record is not sealed: no draft is audited, and nothing is audited twice.
pub fn audit_attestation(ctx: &mut AuditAttestation, report_hash: [u8; 32], is_valid: bool) -> (r: Result<AttestationAudited, HaleError>)
    ensures
        r == outcome(old(ctx).refusal(), old(ctx).event(report_hash, is_valid)),
        r is Err ==> *final(ctx) == *old(ctx),
        r is Ok ==> *final(ctx) == old(ctx).audited(report_hash, is_valid),
        old(ctx).attestation.wf() ==> final(ctx).attestation.wf(),
        final(ctx).attestation.status == old(ctx).attestation.status
            || old(ctx).attestation.status.steps_to(final(ctx).attestation.status),
        final(ctx).attestation.same_terms(old(ctx).attestation),
{
    if ctx.attestation.status != AttestationStatus::Sealed {
        return Err(HaleError::InvalidStatus);
    }
    ctx.attestation.status = if is_valid {
        AttestationStatus::Audited
    } else {
        AttestationStatus::Disputed
    };
    ctx.attestation.report_hash = Some(report_hash);
    Ok(
        AttestationAudited {
            authority: ctx.attestation.authority,
            auditor: ctx.auditor,
            intent_hash: ctx.attestation.intent_hash,
            report_hash,
            is_valid,
        },
    )
}

/// What `challenge_attestation` works on: the record and the calling
/// challenger.
#[derive(Clone, Debug, PartialEq, Eq)]
pub struct ChallengeAttestation {
    pub attestation: Attestation,
    pub challenger: Pubkey,
}

impl ChallengeAttestation {
    /// The first reason, if any, for which the challenge is refused.
    pub open spec fn refusal(&self) -> Option<HaleError> {
        if self.attestation.status != AttestationStatus::Sealed && self.attestation.status
            != AttestationStatus::Audited {
            Some(HaleError::InvalidStatusForChallenge)
        } else {
            None
        }
    }

    /// The record and caller after a challenge that is not refused.
    pub open spec fn challenged(&self, evidence_uri: String) -> ChallengeAttestation {
        ChallengeAttestation {
            attestation: Attestation {
                status: AttestationStatus::Disputed,
                evidence_uri: Some(evidence_uri),
                ..self.attestation
            },
            ..*self
        }
    }

    /// What a challenge that is not refused tells.
    pub open spec fn event(&self, evidence_uri: String) -> AttestationChallenged {
        AttestationChallenged {
            authority: self.attestation.authority,
            challenger: self.challenger,
            intent_hash: self.attestation.intent_hash,
            evidence_uri,
        }
    }
}

/// Challenges a sealed or audited outcome, whoever calls: marks the record
/// disputed, records the evidence, a URI of at most `MAX_URI_LEN` bytes, and
/// tells so. Refused, with nothing changed,
/// as `InvalidStatusForChallenge` where the record is a draft or already
/// disputed.
pub fn challenge_attestation(ctx: &mut ChallengeAttestation, evidence_uri: String) -> (r: Result<AttestationChallenged, HaleError>)
    requires
        fits(evidence_uri),
    ensures
        r == outcome(old(ctx).refusal(), old(ctx).event(evidence_uri)),
        r is Err ==> *final(ctx) == *old(ctx),
        r is Ok ==> *final(ctx) == old(ctx).challenged(evidence_uri),
        old(ctx).attestation.wf() ==> final(ctx).attestation.wf(),
        final(ctx).attestation.status == old(ctx).attestation.status
            || old(ctx).attestation.status.steps_to(final(ctx).attestation.status),
        final(ctx).attestation.same_terms(old(ctx).attestation),
{
    if ctx.attestation.status != AttestationStatus::Sealed && ctx.attestation.status
        != AttestationStatus::Audited {
        return Err(HaleError::InvalidStatusForChallenge);
    }
    ctx.attestation.status = AttestationStatus::Disputed;
    ctx.attestation.evidence_uri = Some(evidence_uri.clone());
    Ok(
        AttestationChallenged {
            authority: ctx.attestation.authority,
            challenger: ctx.challenger,
            intent_hash: ctx.attestation.intent_hash,
            evidence_uri,
        },
    )
}

/// Whether the status at `i + 1` in a history is the one at `i` or one step on.
pub open spec fn keeps_or_steps(trace: Seq<AttestationStatus>, i: int) -> bool {
    trace[i] == trace[i + 1] || trace[i].steps_to(trace[i + 1])
}

/// A history of one attestation's statuses, as its operations leave them one
/// after another: it starts as a draft, and each status is the one before or
/// one step on from it.
pub open spec fn is_history(trace: Seq<AttestationStatus>) -> bool {
    &&& trace.len() > 0
    &&& trace[0] == AttestationStatus::Draft
    &&& forall|i: int| 0 <= i < trace.len() - 1 ==> #[trigger] keeps_or_steps(trace, i)
}

/// No history reaches `Audited` or `Disputed` without passing through
/// `Sealed`: nothing is audited or disputed that was not sealed before.
pub proof fn lemma_judged_only_after_sealed(trace: Seq<AttestationStatus>, i: int)
    requires
        is_history(trace),
        0 <= i < trace.len(),
        trace[i] == AttestationStatus::Audited || trace[i] == AttestationStatus::Disputed,
    ensures
        exists|j: int| 0 <= j < i && trace[j] == AttestationStatus::Sealed,
    decreases i,
{
    if i > 0 {
        assert(keeps_or_steps(trace, i - 1));
        if trace[i - 1] == AttestationStatus::Sealed {
        } else {
            lemma_judged_only_after_sealed(trace, i - 1);
            let j = choose|j: int| 0 <= j < i - 1 && trace[j] == AttestationStatus::Sealed;
            assert(0 <= j < i && trace[j] == AttestationStatus::Sealed);
        }
    }
}

/// `Disputed` is final: once a history shows it, it shows it ever after.
pub proof fn lemma_disputed_stays(trace: Seq<AttestationStatus>, i: int, k: int)
    requires
        is_history(trace),
        0 <= i <= k < trace.len(),
        trace[i] == AttestationStatus::Disputed,
    ensures
        trace[k] == AttestationStatus::Disputed,
    decreases k - i,
{
    if i < k {
        lemma_disputed_stays(trace, i, k - 1);
        assert(keeps_or_steps(trace, k - 1));
    }
}

/// On a disputed attestation every operation is refused: it is neither sealed
/// again, nor audited again, nor challenged again.
pub proof fn lemma_disputed_refuses_all(
    seal: SealAttestation,
    audit: AuditAttestation,
    challenge: ChallengeAttestation,
)
    requires
        seal.attestation.status == AttestationStatus::Disputed,
        audit.attestation.status == AttestationStatus::Disputed,
        challenge.attestation.status == AttestationStatus::Disputed,
    ensures
        seal.refusal() is Some,
        audit.refusal() == Some(HaleError::InvalidStatus),
        challenge.refusal() == Some(HaleError::InvalidStatusForChallenge),
{
}

/// A challenge succeeds on a sealed and on an audited attestation, and is
/// refused as `InvalidStatusForChallenge` on a draft and on a disputed one.
pub proof fn lemma_challenge_by_status(ctx: ChallengeAttestation)
    ensures
        ctx.attestation.status == AttestationStatus::Sealed || ctx.attestation.status
            == AttestationStatus::Audited ==> ctx.refusal() is None,
        ctx.attestation.status == AttestationStatus::Draft || ctx.attestation.status
            == AttestationStatus::Disputed ==> ctx.refusal() == Some(
            HaleError::InvalidStatusForChallenge,
        ),
{
}

/// An outcome is sealed once: after a sealing, a second one on the same
/// record, by whomever and with whatever hash, is refused, and the record
/// holds the hash of the first.
pub proof fn lemma_sealed_once(first: SealAttestation, outcome_hash: [u8; 32], again: SealAttestation)
    requires
        first.refusal() is None,
        again.attestation == first.sealed(outcome_hash).attestation,
    ensures
        first.sealed(outcome_hash).attestation.outcome_hash == Some(outcome_hash),
        again.refusal() is Some,
        again.authority == again.attestation.authority ==> again.refusal() == Some(
            HaleError::InvalidStatusForSeal,
        ),
{
}

/// Once set, an outcome hash stays: on a valid record that holds one, a
/// sealing is refused, and an audit and a challenge leave it as it is.
pub proof fn lemma_outcome_hash_stays(
    seal: SealAttestation,
    outcome_hash: [u8; 32],
    audit: AuditAttestation,
    report_hash: [u8; 32],
    is_valid: bool,
    challenge: ChallengeAttestation,
    evidence_uri: String,
)
    requires
        seal.attestation.wf(),
        seal.attestation.outcome_hash is Some,
    ensures
        seal.refusal() is Some,
        audit.audited(report_hash, is_valid).attestation.outcome_hash
            == audit.attestation.outcome_hash,
        challenge.challenged(evidence_uri).attestation.outcome_hash
            == challenge.attestation.outcome_hash,
{
}

/// Of two initialisations for one authority and intent, whichever comes first
/// succeeds and fills the slot, and the other is refused as a duplicate.
pub proof fn lemma_second_initialisation_is_duplicate(
    first: InitializeAttestation,
    intent_hash: [u8; 32],
    metadata_uri: String,
    second: InitializeAttestation,
)
    requires
        first.attestation is None,
        second.attestation == first.initialized(intent_hash, metadata_uri).attestation,
    ensures
        first.refusal() is None,
        second.refusal() == Some(HaleError::DuplicateRecord),
{
}

} // verus!
