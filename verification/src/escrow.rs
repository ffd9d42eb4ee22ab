//! The escrow state machine: creation, funding and settlement of a record that
//! holds a buyer's funds against an intent.

use vstd::prelude::*;
use crate::keys::{escrow_address, escrow_tag, is_identity, lemma_key_is_its_bytes, program_address, record_seeds, Pubkey};

verus! {

/// The lifecycle stage of an escrow.
#[derive(Clone, Copy, Debug, PartialEq, Eq, Structural)]
pub enum EscrowStatus {
    Draft,
    Funded,
    Released,
    Refunded,
}

impl EscrowStatus {
    /// The transitions that an escrow may make: a draft is funded, and a funded
    /// escrow is released or refunded.
    pub open spec fn steps_to(self, next: EscrowStatus) -> bool {
        ||| self == EscrowStatus::Draft && next == EscrowStatus::Funded
        ||| self == EscrowStatus::Funded && next == EscrowStatus::Released
        ||| self == EscrowStatus::Funded && next == EscrowStatus::Refunded
    }

    /// Settled one way or the other: no transition leaves such a status.
    pub open spec fn is_terminal(self) -> bool {
        self == EscrowStatus::Released || self == EscrowStatus::Refunded
    }
}

/// Why an escrow operation was refused.
#[derive(Clone, Copy, Debug, PartialEq, Eq, Structural)]
pub enum HaleError {
    /// A record already exists for this buyer and intent.
    DuplicateRecord,
    /// The operation is for the other kind of asset.
    AssetMismatch,
    /// The escrow is not in the status that the operation needs.
    InvalidStatus,
    /// The caller, a recipient or a token account's owner is not the expected one.
    Unauthorized,
    /// The paying account holds less than the amount to move.
    InsufficientFunds,
}

/// The escrow record.
#[derive(Clone, Copy, Debug, PartialEq, Eq)]
pub struct EscrowAccount {
    pub buyer: Pubkey,
    pub seller: Pubkey,
    pub intent_hash: [u8; 32],
    pub amount: u64,
    pub is_spl: bool,
    pub status: EscrowStatus,
    pub bump: u8,
}

impl EscrowAccount {
    /// A record holds a positive amount.
    pub open spec fn wf(&self) -> bool {
        self.amount > 0
    }

    /// The same record in another status.
    pub open spec fn with_status(self, status: EscrowStatus) -> EscrowAccount {
        EscrowAccount { status, ..self }
    }
}

/// Whether `key` is the identity of `escrow` under `program_id`: the address
/// that the program derives for the record's buyer and intent, with the
/// record's bump seed.
pub fn holds_identity(escrow: &EscrowAccount, program_id: &Pubkey, key: &Pubkey) -> (r: bool)
    ensures
        r == (program_address(
            record_seeds(escrow_tag(), escrow.buyer@, escrow.intent_hash@),
            program_id@,
        ) == Some((key@, escrow.bump))),
{
    let derived = escrow_address(program_id, &escrow.buyer, &escrow.intent_hash);
    proof {
        if derived is Some {
            lemma_key_is_its_bytes(derived->Some_0.0, *key);
        }
    }
    is_identity(&derived, key, escrow.bump)
}

/// An account with a balance of the native currency.
#[derive(Clone, Copy, Debug, PartialEq, Eq)]
pub struct Wallet {
    pub key: Pubkey,
    pub lamports: u64,
}

impl Wallet {
    /// The same account with another balance.
    pub open spec fn with_lamports(self, lamports: int) -> Wallet {
        Wallet { lamports: lamports as u64, ..self }
    }
}

/// An account with a balance of a token, spendable by its owner.
#[derive(Clone, Copy, Debug, PartialEq, Eq)]
pub struct TokenAccount {
    pub key: Pubkey,
    pub owner: Pubkey,
    pub amount: u64,
}

impl TokenAccount {
    /// The same account with another balance.
    pub open spec fn with_amount(self, amount: int) -> TokenAccount {
        TokenAccount { amount: amount as u64, ..self }
    }
}

/// Two native balances of one ledger: together they fit the ledger's supply.
pub open spec fn wallets_coexist(a: Wallet, b: Wallet) -> bool {
    a.lamports + b.lamports <= u64::MAX
}

/// Two balances of one token: together they fit the token's supply.
pub open spec fn token_accounts_coexist(a: TokenAccount, b: TokenAccount) -> bool {
    a.amount + b.amount <= u64::MAX
}

/// Moves `amount` of the native currency from one account to another, or
/// nothing at all where the payer holds less.
pub fn transfer_native(from: Wallet, to: Wallet, amount: u64) -> (r: Result<(Wallet, Wallet), HaleError>)
    requires
        wallets_coexist(from, to),
    ensures
        r == (if from.lamports < amount {
            Err::<(Wallet, Wallet), HaleError>(HaleError::InsufficientFunds)
        } else {
            Ok((from.with_lamports(from.lamports - amount), to.with_lamports(to.lamports + amount)))
        }),
{
    if from.lamports < amount {
        return Err(HaleError::InsufficientFunds);
    }
    Ok((
        Wallet { key: from.key, lamports: from.lamports - amount },
        Wallet { key: to.key, lamports: to.lamports + amount },
    ))
}

/// Moves `amount` of a token from one account to another on the word of
/// `authority`. Refused as `Unauthorized` where `authority` does not own the
/// paying account, else as `InsufficientFunds` where that account holds less.
pub fn transfer_token(from: TokenAccount, to: TokenAccount, authority: &Pubkey, amount: u64) -> (r: Result<
    (TokenAccount, TokenAccount),
    HaleError,
>)
    requires
        token_accounts_coexist(from, to),
    ensures
        r == (if from.owner != *authority {
            Err::<(TokenAccount, TokenAccount), HaleError>(HaleError::Unauthorized)
        } else if from.amount < amount {
            Err::<(TokenAccount, TokenAccount), HaleError>(HaleError::InsufficientFunds)
        } else {
            Ok((from.with_amount(from.amount - amount), to.with_amount(to.amount + amount)))
        }),
{
    if from.owner != *authority {
        return Err(HaleError::Unauthorized);
    }
    if from.amount < amount {
        return Err(HaleError::InsufficientFunds);
    }
    Ok((
        TokenAccount { key: from.key, owner: from.owner, amount: from.amount - amount },
        TokenAccount { key: to.key, owner: to.owner, amount: to.amount + amount },
    ))
}

/// What `create_escrow` works on: the slot for the record of this buyer and
/// intent, vacant or not, the two parties, and the slot's bump seed.
#[derive(Clone, Copy, Debug, PartialEq, Eq)]
pub struct CreateEscrow {
    pub escrow: Option<EscrowAccount>,
    pub buyer: Pubkey,
    pub seller: Pubkey,
    pub bump: u8,
}

impl CreateEscrow {
    /// The first reason, if any, for which the creation is refused.
    pub open spec fn refusal(&self) -> Option<HaleError> {
        if self.escrow is Some {
            Some(HaleError::DuplicateRecord)
        } else {
            None
        }
    }

    /// The record that a creation writes.
    pub open spec fn record(&self, intent_hash: [u8; 32], amount: u64, is_spl: bool) -> EscrowAccount {
        EscrowAccount {
            buyer: self.buyer,
            seller: self.seller,
            intent_hash,
            amount,
            is_spl,
            status: EscrowStatus::Draft,
            bump: self.bump,
        }
    }

    /// The slot and parties after a creation that is not refused.
    pub open spec fn created(&self, intent_hash: [u8; 32], amount: u64, is_spl: bool) -> CreateEscrow {
        CreateEscrow { escrow: Some(self.record(intent_hash, amount, is_spl)), ..*self }
    }
}

/// The outcome of an operation that is refused for `refusal`, if for anything.
pub open spec fn outcome(refusal: Option<HaleError>) -> Result<(), HaleError> {
    match refusal {
        Some(e) => Err(e),
        None => Ok(()),
    }
}

/// Creates the record in its slot as a draft, with the given intent, amount
/// and kind of asset. Refused as `DuplicateRecord` where the slot already
/// holds a record, which then stays as it is.
pub fn create_escrow(ctx: &mut CreateEscrow, intent_hash: [u8; 32], amount: u64, is_spl: bool) -> (r: Result<(), HaleError>)
    requires
        amount > 0,
    ensures
        r == outcome(old(ctx).refusal()),
        r is Err ==> *final(ctx) == *old(ctx),
        r is Ok ==> *final(ctx) == old(ctx).created(intent_hash, amount, is_spl),
        r is Ok ==> final(ctx).escrow->Some_0.wf(),
{
    if ctx.escrow.is_some() {
        return Err(HaleError::DuplicateRecord);
    }
    ctx.escrow = Some(
        EscrowAccount {
            buyer: ctx.buyer,
            seller: ctx.seller,
            intent_hash,
            amount,
            is_spl,
            status: EscrowStatus::Draft,
            bump: ctx.bump,
        },
    );
    Ok(())
}

/// What `deposit_sol` works on: the record, the account that keeps it and
/// holds its native funds, and the calling buyer's account.
#[derive(Clone, Copy, Debug, PartialEq, Eq)]
pub struct DepositSol {
    pub escrow: EscrowAccount,
    pub custody: Wallet,
    pub buyer: Wallet,
}

impl DepositSol {
    /// The two balances between which the operation may move the amount fit
    /// one ledger.
    pub open spec fn wf(&self) -> bool {
        wallets_coexist(self.buyer, self.custody)
    }

    /// The first reason, if any, for which the deposit is refused.
    pub open spec fn refusal(&self) -> Option<HaleError> {
        if self.escrow.is_spl {
            Some(HaleError::AssetMismatch)
        } else if self.buyer.key != self.escrow.buyer {
            Some(HaleError::Unauthorized)
        } else if self.escrow.status != EscrowStatus::Draft {
            Some(HaleError::InvalidStatus)
        } else if self.buyer.lamports < self.escrow.amount {
            Some(HaleError::InsufficientFunds)
        } else {
            None
        }
    }

    /// The accounts after a deposit that is not refused.
    pub open spec fn funded(&self) -> DepositSol {
        DepositSol {
            escrow: self.escrow.with_status(EscrowStatus::Funded),
            custody: self.custody.with_lamports(self.custody.lamports + self.escrow.amount),
            buyer: self.buyer.with_lamports(self.buyer.lamports - self.escrow.amount),
        }
    }
}

/// Funds a native-currency escrow: moves the record's amount from the buyer to
/// custody and marks the record funded. Refused, with nothing changed, as
/// `AssetMismatch` for a token escrow, else as `Unauthorized` where the caller
/// is not the record's buyer, else as `InvalidStatus` where the record is no
/// draft, else as `InsufficientFunds` where the buyer holds less.
pub fn deposit_sol(ctx: &mut DepositSol) -> (r: Result<(), HaleError>)
    requires
        old(ctx).wf(),
    ensures
        r == outcome(old(ctx).refusal()),
        r is Err ==> *final(ctx) == *old(ctx),
        r is Ok ==> *final(ctx) == old(ctx).funded(),
        old(ctx).escrow.is_spl ==> r == Err::<(), HaleError>(HaleError::AssetMismatch),
        final(ctx).escrow.status == old(ctx).escrow.status || old(ctx).escrow.status.steps_to(
            final(ctx).escrow.status,
        ),
        final(ctx).escrow == old(ctx).escrow.with_status(final(ctx).escrow.status),
{
    let amount: u64 = ctx.escrow.amount;
    if ctx.escrow.is_spl {
        return Err(HaleError::AssetMismatch);
    }
    if ctx.buyer.key != ctx.escrow.buyer {
        return Err(HaleError::Unauthorized);
    }
    if ctx.escrow.status != EscrowStatus::Draft {
        return Err(HaleError::InvalidStatus);
    }
    match transfer_native(ctx.buyer, ctx.custody, amount) {
        Err(e) => Err(e),
        Ok((buyer, custody)) => {
            ctx.buyer = buyer;
            ctx.custody = custody;
            ctx.escrow.status = EscrowStatus::Funded;
            Ok(())
        },
    }
}


/// What `deposit_token` works on: the record, the key of the account that
/// keeps it, the buyer's token account, the vault, and the calling buyer.
#[derive(Clone, Copy, Debug, PartialEq, Eq)]
pub struct DepositToken {
    pub escrow: EscrowAccount,
    pub escrow_key: Pubkey,
    pub buyer_token_account: TokenAccount,
    pub escrow_token_vault: TokenAccount,
    pub buyer: Pubkey,
}

impl DepositToken {
    /// The two balances between which the operation may move the amount fit
    /// one ledger.
    pub open spec fn wf(&self) -> bool {
        token_accounts_coexist(self.buyer_token_account, self.escrow_token_vault)
    }

    /// The first reason, if any, for which the deposit is refused.
    pub open spec fn refusal(&self) -> Option<HaleError> {
        if !self.escrow.is_spl {
            Some(HaleError::AssetMismatch)
        } else if self.buyer != self.escrow.buyer || self.escrow_token_vault.owner
            != self.escrow_key || self.buyer_token_account.owner != self.buyer {
            Some(HaleError::Unauthorized)
        } else if self.escrow.status != EscrowStatus::Draft {
            Some(HaleError::InvalidStatus)
        } else if self.buyer_token_account.amount < self.escrow.amount {
            Some(HaleError::InsufficientFunds)
        } else {
            None
        }
    }

    /// The accounts after a deposit that is not refused.
    pub open spec fn funded(&self) -> DepositToken {
        DepositToken {
            escrow: self.escrow.with_status(EscrowStatus::Funded),
            buyer_token_account: self.buyer_token_account.with_amount(
                self.buyer_token_account.amount - self.escrow.amount,
            ),
            escrow_token_vault: self.escrow_token_vault.with_amount(
                self.escrow_token_vault.amount + self.escrow.amount,
            ),
            ..*self
        }
    }
}

/// Funds a token escrow: moves the record's amount from the buyer's token
/// account to the vault and marks the record funded. Refused, with nothing
/// changed, as `AssetMismatch` for a native-currency escrow, else as
/// `Unauthorized` where the caller is not the record's buyer, the vault is not
/// owned by the record's identity or the paying account is not the caller's,
/// else as `InvalidStatus` where the record is no draft, else as
/// `InsufficientFunds` where the paying account holds less.
pub fn deposit_token(ctx: &mut DepositToken) -> (r: Result<(), HaleError>)
    requires
        old(ctx).wf(),
    ensures
        r == outcome(old(ctx).refusal()),
        r is Err ==> *final(ctx) == *old(ctx),
        r is Ok ==> *final(ctx) == old(ctx).funded(),
        !old(ctx).escrow.is_spl ==> r == Err::<(), HaleError>(HaleError::AssetMismatch),
        final(ctx).escrow.status == old(ctx).escrow.status || old(ctx).escrow.status.steps_to(
            final(ctx).escrow.status,
        ),
        final(ctx).escrow == old(ctx).escrow.with_status(final(ctx).escrow.status),
{
    let amount: u64 = ctx.escrow.amount;
    if !ctx.escrow.is_spl {
        return Err(HaleError::AssetMismatch);
    }
    if ctx.buyer != ctx.escrow.buyer || ctx.escrow_token_vault.owner != ctx.escrow_key {
        return Err(HaleError::Unauthorized);
    }
    if ctx.buyer_token_account.owner != ctx.buyer {
        return Err(HaleError::Unauthorized);
    }
    if ctx.escrow.status != EscrowStatus::Draft {
        return Err(HaleError::InvalidStatus);
    }
    let buyer = ctx.buyer;
    match transfer_token(ctx.buyer_token_account, ctx.escrow_token_vault, &buyer, amount) {
        Err(e) => Err(e),
        Ok((payer, vault)) => {
            ctx.buyer_token_account = payer;
            ctx.escrow_token_vault = vault;
            ctx.escrow.status = EscrowStatus::Funded;
            Ok(())
        },
    }
}

/// What `release` works on: the record, the account that keeps it and holds
/// its native funds, the vault that holds its tokens, the caller who signed
/// as oracle, the key that holds the oracle role, and the seller's account
/// and token account.
#[derive(Clone, Copy, Debug, PartialEq, Eq)]
pub struct Release {
    pub escrow: EscrowAccount,
    pub custody: Wallet,
    pub oracle: Pubkey,
    pub designated_oracle: Pubkey,
    pub seller: Wallet,
    pub seller_token_account: TokenAccount,
    pub escrow_token_vault: TokenAccount,
}

impl Release {
    /// The two balances of the record's kind of asset, between which the
    /// operation may move the amount, fit one ledger.
    pub open spec fn wf(&self) -> bool {
        if self.escrow.is_spl {
            token_accounts_coexist(self.escrow_token_vault, self.seller_token_account)
        } else {
            wallets_coexist(self.custody, self.seller)
        }
    }

    /// The first reason, if any, for which the settlement is refused.
    pub open spec fn refusal(&self) -> Option<HaleError> {
        if self.escrow.status != EscrowStatus::Funded {
            Some(HaleError::InvalidStatus)
        } else if self.oracle != self.designated_oracle {
            Some(HaleError::Unauthorized)
        } else if self.seller.key != self.escrow.seller {
            Some(HaleError::Unauthorized)
        } else if self.escrow.is_spl {
            if self.seller_token_account.owner != self.escrow.seller
                || self.escrow_token_vault.owner != self.custody.key {
                Some(HaleError::Unauthorized)
            } else if self.escrow_token_vault.amount < self.escrow.amount {
                Some(HaleError::InsufficientFunds)
            } else {
                None
            }
        } else if self.custody.lamports < self.escrow.amount {
            Some(HaleError::InsufficientFunds)
        } else {
            None
        }
    }

    /// The accounts after a settlement that is not refused.
    pub open spec fn settled(&self) -> Release {
        if self.escrow.is_spl {
            Release {
                escrow: self.escrow.with_status(EscrowStatus::Released),
                escrow_token_vault: self.escrow_token_vault.with_amount(
                    self.escrow_token_vault.amount - self.escrow.amount,
                ),
                seller_token_account: self.seller_token_account.with_amount(
                    self.seller_token_account.amount + self.escrow.amount,
                ),
                ..*self
            }
        } else {
            Release {
                escrow: self.escrow.with_status(EscrowStatus::Released),
                custody: self.custody.with_lamports(self.custody.lamports - self.escrow.amount),
                seller: self.seller.with_lamports(self.seller.lamports + self.escrow.amount),
                ..*self
            }
        }
    }
}

/// Releases a funded escrow on the oracle's word: moves the record's amount out
/// of custody to the seller, in the record's kind of asset, and marks the
/// record released. The vault pays on the authority of the record's own
/// identity, never on a signature of buyer or seller. Refused, with nothing
/// changed, as `InvalidStatus` where the record is not funded, else as
/// `Unauthorized` where the caller is not the designated oracle, else as
/// `Unauthorized` where the receiving account is not the record's seller's
/// or, for tokens, the receiving token account is not the seller's or the
/// vault is not owned by the record's identity, else as `InsufficientFunds`
/// where custody holds less than the amount.
pub fn release(ctx: &mut Release) -> (r: Result<(), HaleError>)
    requires
        old(ctx).wf(),
    ensures
        r == outcome(old(ctx).refusal()),
        r is Err ==> *final(ctx) == *old(ctx),
        r is Ok ==> *final(ctx) == old(ctx).settled(),
        final(ctx).escrow.status == old(ctx).escrow.status || old(ctx).escrow.status.steps_to(
            final(ctx).escrow.status,
        ),
        final(ctx).escrow == old(ctx).escrow.with_status(final(ctx).escrow.status),
        old(ctx).escrow.status == EscrowStatus::Funded && old(ctx).oracle != old(
            ctx,
        ).designated_oracle ==> r == Err::<(), HaleError>(HaleError::Unauthorized),
{
    let is_spl = ctx.escrow.is_spl;
    let amount: u64 = ctx.escrow.amount;
    if ctx.escrow.status != EscrowStatus::Funded {
        return Err(HaleError::InvalidStatus);
    }
    if ctx.oracle != ctx.designated_oracle {
        return Err(HaleError::Unauthorized);
    }
    if ctx.seller.key != ctx.escrow.seller {
        return Err(HaleError::Unauthorized);
    }
    if is_spl {
        if ctx.seller_token_account.owner != ctx.escrow.seller {
            return Err(HaleError::Unauthorized);
        }
        let authority = ctx.custody.key;
        match transfer_token(ctx.escrow_token_vault, ctx.seller_token_account, &authority, amount) {
            Err(e) => {
                return Err(e);
            },
            Ok((vault, receiver)) => {
                ctx.escrow_token_vault = vault;
                ctx.seller_token_account = receiver;
            },
        }
    } else {
        match transfer_native(ctx.custody, ctx.seller, amount) {
            Err(e) => {
                return Err(e);
            },
            Ok((custody, receiver)) => {
                ctx.custody = custody;
                ctx.seller = receiver;
            },
        }
    }
    ctx.escrow.status = EscrowStatus::Released;
    Ok(())
}

/// What `refund` works on: the record, the account that keeps it and holds
/// its native funds, the vault that holds its tokens, the caller who signed
/// as oracle, the key that holds the oracle role, and the buyer's account
/// and token account.
#[derive(Clone, Copy, Debug, PartialEq, Eq)]
pub struct Refund {
    pub escrow: EscrowAccount,
    pub custody: Wallet,
    pub oracle: Pubkey,
    pub designated_oracle: Pubkey,
    pub buyer: Wallet,
    pub buyer_token_account: TokenAccount,
    pub escrow_token_vault: TokenAccount,
}

impl Refund {
    /// The two balances of the record's kind of asset, between which the
    /// operation may move the amount, fit one ledger.
    pub open spec fn wf(&self) -> bool {
        if self.escrow.is_spl {
            token_accounts_coexist(self.escrow_token_vault, self.buyer_token_account)
        } else {
            wallets_coexist(self.custody, self.buyer)
        }
    }

    /// The first reason, if any, for which the settlement is refused.
    pub open spec fn refusal(&self) -> Option<HaleError> {
        if self.escrow.status != EscrowStatus::Funded {
            Some(HaleError::InvalidStatus)
        } else if self.oracle != self.designated_oracle {
            Some(HaleError::Unauthorized)
        } else if self.buyer.key != self.escrow.buyer {
            Some(HaleError::Unauthorized)
        } else if self.escrow.is_spl {
            if self.buyer_token_account.owner != self.escrow.buyer
                || self.escrow_token_vault.owner != self.custody.key {
                Some(HaleError::Unauthorized)
            } else if self.escrow_token_vault.amount < self.escrow.amount {
                Some(HaleError::InsufficientFunds)
            } else {
                None
            }
        } else if self.custody.lamports < self.escrow.amount {
            Some(HaleError::InsufficientFunds)
        } else {
            None
        }
    }

    /// The accounts after a settlement that is not refused.
    pub open spec fn settled(&self) -> Refund {
        if self.escrow.is_spl {
            Refund {
                escrow: self.escrow.with_status(EscrowStatus::Refunded),
                escrow_token_vault: self.escrow_token_vault.with_amount(
                    self.escrow_token_vault.amount - self.escrow.amount,
                ),
                buyer_token_account: self.buyer_token_account.with_amount(
                    self.buyer_token_account.amount + self.escrow.amount,
                ),
                ..*self
            }
        } else {
            Refund {
                escrow: self.escrow.with_status(EscrowStatus::Refunded),
                custody: self.custody.with_lamports(self.custody.lamports - self.escrow.amount),
                buyer: self.buyer.with_lamports(self.buyer.lamports + self.escrow.amount),
                ..*self
            }
        }
    }
}

/// Refunds a funded escrow on the oracle's word: moves the record's amount out
/// of custody to the buyer, in the record's kind of asset, and marks the
/// record refunded. The vault pays on the authority of the record's own
/// identity, never on a signature of buyer or seller. Refused, with nothing
/// changed, as `InvalidStatus` where the record is not funded, else as
/// `Unauthorized` where the caller is not the designated oracle, else as
/// `Unauthorized` where the receiving account is not the record's buyer's
/// or, for tokens, the receiving token account is not the buyer's or the
/// vault is not owned by the record's identity, else as `InsufficientFunds`
/// where custody holds less than the amount.
pub fn refund(ctx: &mut Refund) -> (r: Result<(), HaleError>)
    requires
        old(ctx).wf(),
    ensures
        r == outcome(old(ctx).refusal()),
        r is Err ==> *final(ctx) == *old(ctx),
        r is Ok ==> *final(ctx) == old(ctx).settled(),
        final(ctx).escrow.status == old(ctx).escrow.status || old(ctx).escrow.status.steps_to(
            final(ctx).escrow.status,
        ),
        final(ctx).escrow == old(ctx).escrow.with_status(final(ctx).escrow.status),
        old(ctx).escrow.status == EscrowStatus::Funded && old(ctx).oracle != old(
            ctx,
        ).designated_oracle ==> r == Err::<(), HaleError>(HaleError::Unauthorized),
{
    let is_spl = ctx.escrow.is_spl;
    let amount: u64 = ctx.escrow.amount;
    if ctx.escrow.status != EscrowStatus::Funded {
        return Err(HaleError::InvalidStatus);
    }
    if ctx.oracle != ctx.designated_oracle {
        return Err(HaleError::Unauthorized);
    }
    if ctx.buyer.key != ctx.escrow.buyer {
        return Err(HaleError::Unauthorized);
    }
    if is_spl {
        if ctx.buyer_token_account.owner != ctx.escrow.buyer {
            return Err(HaleError::Unauthorized);
        }
        let authority = ctx.custody.key;
        match transfer_token(ctx.escrow_token_vault, ctx.buyer_token_account, &authority, amount) {
            Err(e) => {
                return Err(e);
            },
            Ok((vault, receiver)) => {
                ctx.escrow_token_vault = vault;
                ctx.buyer_token_account = receiver;
            },
        }
    } else {
        match transfer_native(ctx.custody, ctx.buyer, amount) {
            Err(e) => {
                return Err(e);
            },
            Ok((custody, receiver)) => {
                ctx.custody = custody;
                ctx.buyer = receiver;
            },
        }
    }
    ctx.escrow.status = EscrowStatus::Refunded;
    Ok(())
}

/// What `pay_with_usdc` works on: the paying user, their token account and the
/// fee recipient's token account.
#[derive(Clone, Copy, Debug, PartialEq, Eq)]
pub struct PayWithUsdc {
    pub user: Pubkey,
    pub user_token_account: TokenAccount,
    pub paymaster_token_account: TokenAccount,
}

impl PayWithUsdc {
    /// The two balances between which the operation may move the amount fit
    /// one ledger.
    pub open spec fn wf(&self) -> bool {
        token_accounts_coexist(self.user_token_account, self.paymaster_token_account)
    }

    /// The first reason, if any, for which the payment is refused.
    pub open spec fn refusal(&self, fee_amount: u64) -> Option<HaleError> {
        if self.user_token_account.owner != self.user {
            Some(HaleError::Unauthorized)
        } else if self.user_token_account.amount < fee_amount {
            Some(HaleError::InsufficientFunds)
        } else {
            None
        }
    }

    /// The accounts after a payment that is not refused.
    pub open spec fn paid(&self, fee_amount: u64) -> PayWithUsdc {
        PayWithUsdc {
            user_token_account: self.user_token_account.with_amount(
                self.user_token_account.amount - fee_amount,
            ),
            paymaster_token_account: self.paymaster_token_account.with_amount(
                self.paymaster_token_account.amount + fee_amount,
            ),
            ..*self
        }
    }
}

/// Pays a service fee: moves exactly `fee_amount` tokens from the user's token
/// account to the fee recipient's, whatever any escrow's status. Refused, with
/// nothing changed, as `Unauthorized` where the paying account is not the
/// user's, else as `InsufficientFunds` where it holds less than the fee.
pub fn pay_with_usdc(ctx: &mut PayWithUsdc, fee_amount: u64) -> (r: Result<(), HaleError>)
    requires
        old(ctx).wf(),
    ensures
        r == outcome(old(ctx).refusal(fee_amount)),
        r is Err ==> *final(ctx) == *old(ctx),
        r is Ok ==> *final(ctx) == old(ctx).paid(fee_amount),
{
    let user = ctx.user;
    match transfer_token(ctx.user_token_account, ctx.paymaster_token_account, &user, fee_amount) {
        Err(e) => Err(e),
        Ok((payer, recipient)) => {
            ctx.user_token_account = payer;
            ctx.paymaster_token_account = recipient;
            Ok(())
        },
    }
}


/// Whether the status at `i + 1` in a history is the one at `i` or one step on.
pub open spec fn keeps_or_steps(trace: Seq<EscrowStatus>, i: int) -> bool {
    trace[i] == trace[i + 1] || trace[i].steps_to(trace[i + 1])
}

/// A history of one escrow's statuses, as its operations leave them one after
/// another: it starts as a draft, and each status is the one before or one
/// step on from it.
pub open spec fn is_history(trace: Seq<EscrowStatus>) -> bool {
    &&& trace.len() > 0
    &&& trace[0] == EscrowStatus::Draft
    &&& forall|i: int| 0 <= i < trace.len() - 1 ==> #[trigger] keeps_or_steps(trace, i)
}

/// No history reaches `Released` or `Refunded` without passing through
/// `Funded`: where an escrow is settled, it was funded before.
pub proof fn lemma_settled_only_after_funded(trace: Seq<EscrowStatus>, i: int)
    requires
        is_history(trace),
        0 <= i < trace.len(),
        trace[i].is_terminal(),
    ensures
        exists|j: int| 0 <= j < i && trace[j] == EscrowStatus::Funded,
    decreases i,
{
    if i > 0 {
        assert(keeps_or_steps(trace, i - 1));
        if trace[i - 1] == trace[i] {
            lemma_settled_only_after_funded(trace, i - 1);
            let j = choose|j: int| 0 <= j < i - 1 && trace[j] == EscrowStatus::Funded;
            assert(0 <= j < i && trace[j] == EscrowStatus::Funded);
        } else {
            assert(trace[i - 1] == EscrowStatus::Funded);
        }
    }
}

/// `Released` and `Refunded` are final: once a history shows one of them, it
/// shows the same status ever after.
pub proof fn lemma_settled_status_stays(trace: Seq<EscrowStatus>, i: int, k: int)
    requires
        is_history(trace),
        0 <= i <= k < trace.len(),
        trace[i].is_terminal(),
    ensures
        trace[k] == trace[i],
    decreases k - i,
{
    if i < k {
        lemma_settled_status_stays(trace, i, k - 1);
        assert(keeps_or_steps(trace, k - 1));
    }
}

/// Of two creations for one buyer and intent, whichever comes first succeeds
/// and fills the slot, and the other, whatever it asks for, is refused as a
/// duplicate.
pub proof fn lemma_second_creation_is_duplicate(
    first: CreateEscrow,
    intent_hash: [u8; 32],
    amount: u64,
    is_spl: bool,
    second: CreateEscrow,
)
    requires
        first.escrow is None,
        second.escrow == first.created(intent_hash, amount, is_spl).escrow,
    ensures
        outcome(first.refusal()) is Ok,
        outcome(second.refusal()) == Err::<(), HaleError>(HaleError::DuplicateRecord),
{
}

/// After a release, the record can be neither released nor refunded again:
/// either attempt, on whatever accounts, is refused as `InvalidStatus`.
pub proof fn lemma_released_once(first: Release, again: Release, back: Refund)
    requires
        first.refusal() is None,
        again.escrow == first.settled().escrow,
        back.escrow == first.settled().escrow,
    ensures
        outcome(again.refusal()) == Err::<(), HaleError>(HaleError::InvalidStatus),
        outcome(back.refusal()) == Err::<(), HaleError>(HaleError::InvalidStatus),
{
}

/// After a refund, the record can be neither refunded nor released again:
/// either attempt, on whatever accounts, is refused as `InvalidStatus`.
pub proof fn lemma_refunded_once(first: Refund, again: Refund, forth: Release)
    requires
        first.refusal() is None,
        again.escrow == first.settled().escrow,
        forth.escrow == first.settled().escrow,
    ensures
        outcome(again.refusal()) == Err::<(), HaleError>(HaleError::InvalidStatus),
        outcome(forth.refusal()) == Err::<(), HaleError>(HaleError::InvalidStatus),
{
}

/// Only the designated oracle settles: on a funded escrow, a release or a
/// refund that anyone else signs, the buyer and the seller too, is refused as
/// `Unauthorized`, whatever the accounts hold.
pub proof fn lemma_only_the_oracle_settles(forth: Release, back: Refund)
    requires
        forth.escrow.status == EscrowStatus::Funded,
        forth.oracle != forth.designated_oracle,
        back.escrow.status == EscrowStatus::Funded,
        back.oracle != back.designated_oracle,
    ensures
        outcome(forth.refusal()) == Err::<(), HaleError>(HaleError::Unauthorized),
        outcome(back.refusal()) == Err::<(), HaleError>(HaleError::Unauthorized),
{
}

/// A release moves exactly the record's amount: custody, in the record's kind
/// of asset, loses it, the seller gains it, the balances of the other kind
/// stay, and the record keeps its amount.
pub proof fn lemma_release_moves_amount(ctx: Release)
    requires
        ctx.wf(),
        ctx.refusal() is None,
    ensures
        ctx.settled().escrow.amount == ctx.escrow.amount,
        ctx.escrow.is_spl ==> {
            &&& ctx.settled().escrow_token_vault.amount == ctx.escrow_token_vault.amount
                - ctx.escrow.amount
            &&& ctx.settled().seller_token_account.amount == ctx.seller_token_account.amount
                + ctx.escrow.amount
            &&& ctx.settled().custody == ctx.custody
            &&& ctx.settled().seller == ctx.seller
        },
        !ctx.escrow.is_spl ==> {
            &&& ctx.settled().custody.lamports == ctx.custody.lamports - ctx.escrow.amount
            &&& ctx.settled().seller.lamports == ctx.seller.lamports + ctx.escrow.amount
            &&& ctx.settled().escrow_token_vault == ctx.escrow_token_vault
            &&& ctx.settled().seller_token_account == ctx.seller_token_account
        },
{
}

/// A refund moves exactly the record's amount: custody, in the record's kind
/// of asset, loses it, the buyer gains it, the balances of the other kind
/// stay, and the record keeps its amount.
pub proof fn lemma_refund_moves_amount(ctx: Refund)
    requires
        ctx.wf(),
        ctx.refusal() is None,
    ensures
        ctx.settled().escrow.amount == ctx.escrow.amount,
        ctx.escrow.is_spl ==> {
            &&& ctx.settled().escrow_token_vault.amount == ctx.escrow_token_vault.amount
                - ctx.escrow.amount
            &&& ctx.settled().buyer_token_account.amount == ctx.buyer_token_account.amount
                + ctx.escrow.amount
            &&& ctx.settled().custody == ctx.custody
            &&& ctx.settled().buyer == ctx.buyer
        },
        !ctx.escrow.is_spl ==> {
            &&& ctx.settled().custody.lamports == ctx.custody.lamports - ctx.escrow.amount
            &&& ctx.settled().buyer.lamports == ctx.buyer.lamports + ctx.escrow.amount
            &&& ctx.settled().escrow_token_vault == ctx.escrow_token_vault
            &&& ctx.settled().buyer_token_account == ctx.buyer_token_account
        },
{
}

/// A native-currency deposit on a token escrow is refused as `AssetMismatch`,
/// whoever calls and whatever the record's status, and a token deposit on a
/// native-currency escrow likewise.
pub proof fn lemma_deposit_of_other_asset_refused(native: DepositSol, token: DepositToken)
    ensures
        native.escrow.is_spl ==> outcome(native.refusal()) == Err::<(), HaleError>(
            HaleError::AssetMismatch,
        ),
        !token.escrow.is_spl ==> outcome(token.refusal()) == Err::<(), HaleError>(
            HaleError::AssetMismatch,
        ),
{
}

} // verus!
