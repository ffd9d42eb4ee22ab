use hale::escrow::{
    create_escrow, deposit_sol, deposit_token, pay_with_usdc, refund, release, transfer_native,
    transfer_token, CreateEscrow, DepositSol, DepositToken, EscrowAccount, EscrowStatus,
    HaleError, PayWithUsdc, Refund, Release, TokenAccount, Wallet,
};
use hale::keys::Pubkey;

fn key(n: u8) -> Pubkey {
    Pubkey { bytes: [n; 32] }
}

const BUYER: u8 = 1;
const SELLER: u8 = 2;
const CUSTODY: u8 = 3;
const ORACLE: u8 = 4;
const STRANGER: u8 = 9;

fn wallet(n: u8, lamports: u64) -> Wallet {
    Wallet { key: key(n), lamports }
}

fn tokens(n: u8, owner: u8, amount: u64) -> TokenAccount {
    TokenAccount { key: key(n), owner: key(owner), amount }
}

fn new_escrow(amount: u64, is_spl: bool) -> EscrowAccount {
    let mut ctx = CreateEscrow { escrow: None, buyer: key(BUYER), seller: key(SELLER), bump: 254 };
    assert_eq!(create_escrow(&mut ctx, [7; 32], amount, is_spl), Ok(()));
    ctx.escrow.unwrap()
}

fn funded(amount: u64, is_spl: bool) -> EscrowAccount {
    let mut escrow = new_escrow(amount, is_spl);
    escrow.status = EscrowStatus::Funded;
    escrow
}

fn release_ctx(escrow: EscrowAccount) -> Release {
    Release {
        escrow,
        custody: wallet(CUSTODY, 5_000),
        oracle: key(ORACLE),
        designated_oracle: key(ORACLE),
        seller: wallet(SELLER, 10),
        seller_token_account: tokens(20, SELLER, 30),
        escrow_token_vault: tokens(21, CUSTODY, 800),
    }
}

fn refund_ctx(escrow: EscrowAccount) -> Refund {
    Refund {
        escrow,
        custody: wallet(CUSTODY, 5_000),
        oracle: key(ORACLE),
        designated_oracle: key(ORACLE),
        buyer: wallet(BUYER, 10),
        buyer_token_account: tokens(22, BUYER, 30),
        escrow_token_vault: tokens(21, CUSTODY, 800),
    }
}

#[test]
fn create_writes_a_draft_with_the_given_terms() {
    let escrow = new_escrow(1000, false);
    assert_eq!(
        escrow,
        EscrowAccount {
            buyer: key(BUYER),
            seller: key(SELLER),
            intent_hash: [7; 32],
            amount: 1000,
            is_spl: false,
            status: EscrowStatus::Draft,
            bump: 254,
        }
    );
}

#[test]
fn second_create_for_same_key_is_a_duplicate() {
    let mut ctx = CreateEscrow { escrow: None, buyer: key(BUYER), seller: key(SELLER), bump: 254 };
    assert_eq!(create_escrow(&mut ctx, [7; 32], 1000, false), Ok(()));
    let kept = ctx;
    assert_eq!(create_escrow(&mut ctx, [7; 32], 55, true), Err(HaleError::DuplicateRecord));
    assert_eq!(ctx, kept);
}

#[test]
fn duplicate_whichever_order() {
    let mut ctx = CreateEscrow { escrow: None, buyer: key(BUYER), seller: key(SELLER), bump: 254 };
    assert_eq!(create_escrow(&mut ctx, [7; 32], 55, true), Ok(()));
    assert_eq!(create_escrow(&mut ctx, [7; 32], 1000, false), Err(HaleError::DuplicateRecord));
    assert_eq!(ctx.escrow.unwrap().amount, 55);
}

#[test]
fn native_escrow_is_funded_then_released() {
    let escrow = new_escrow(1000, false);
    assert_eq!(escrow.status, EscrowStatus::Draft);
    let mut dep = DepositSol { escrow, custody: wallet(CUSTODY, 7), buyer: wallet(BUYER, 4_000) };
    assert_eq!(deposit_sol(&mut dep), Ok(()));
    assert_eq!(dep.escrow.status, EscrowStatus::Funded);
    assert_eq!(dep.buyer.lamports, 3_000);
    assert_eq!(dep.custody.lamports, 1_007);

    let mut rel = Release {
        escrow: dep.escrow,
        custody: dep.custody,
        oracle: key(ORACLE),
        designated_oracle: key(ORACLE),
        seller: wallet(SELLER, 10),
        seller_token_account: tokens(20, SELLER, 0),
        escrow_token_vault: tokens(21, CUSTODY, 0),
    };
    assert_eq!(release(&mut rel), Ok(()));
    assert_eq!(rel.escrow.status, EscrowStatus::Released);
    assert_eq!(rel.seller.lamports, 1_010);
    assert_eq!(rel.custody.lamports, 7);
    assert_eq!(rel.escrow.amount, 1000);
    assert_eq!(rel.seller_token_account, tokens(20, SELLER, 0));
    assert_eq!(rel.escrow_token_vault, tokens(21, CUSTODY, 0));
}

#[test]
fn native_escrow_is_funded_then_refunded() {
    let escrow = new_escrow(1000, false);
    let mut dep = DepositSol { escrow, custody: wallet(CUSTODY, 7), buyer: wallet(BUYER, 4_000) };
    assert_eq!(deposit_sol(&mut dep), Ok(()));
    let mut back = Refund {
        escrow: dep.escrow,
        custody: dep.custody,
        oracle: key(ORACLE),
        designated_oracle: key(ORACLE),
        buyer: dep.buyer,
        buyer_token_account: tokens(22, BUYER, 0),
        escrow_token_vault: tokens(21, CUSTODY, 0),
    };
    assert_eq!(refund(&mut back), Ok(()));
    assert_eq!(back.escrow.status, EscrowStatus::Refunded);
    assert_eq!(back.buyer.lamports, 4_000);
    assert_eq!(back.custody.lamports, 7);
}

#[test]
fn token_escrow_takes_token_deposit_and_refuses_native() {
    let escrow = new_escrow(500, true);
    let mut native = DepositSol { escrow, custody: wallet(CUSTODY, 7), buyer: wallet(BUYER, 4_000) };
    let before = native;
    assert_eq!(deposit_sol(&mut native), Err(HaleError::AssetMismatch));
    assert_eq!(native, before);
    assert_eq!(native.escrow.status, EscrowStatus::Draft);

    let mut dep = DepositToken {
        escrow,
        escrow_key: key(CUSTODY),
        buyer_token_account: tokens(22, BUYER, 900),
        escrow_token_vault: tokens(21, CUSTODY, 1),
        buyer: key(BUYER),
    };
    assert_eq!(deposit_token(&mut dep), Ok(()));
    assert_eq!(dep.escrow.status, EscrowStatus::Funded);
    assert_eq!(dep.buyer_token_account.amount, 400);
    assert_eq!(dep.escrow_token_vault.amount, 501);
}

#[test]
fn asset_mismatch_comes_before_any_other_refusal() {
    let mut escrow = new_escrow(500, true);
    escrow.status = EscrowStatus::Released;
    let mut native = DepositSol { escrow, custody: wallet(CUSTODY, 7), buyer: wallet(STRANGER, 0) };
    assert_eq!(deposit_sol(&mut native), Err(HaleError::AssetMismatch));

    let mut escrow = new_escrow(500, false);
    escrow.status = EscrowStatus::Funded;
    let mut dep = DepositToken {
        escrow,
        escrow_key: key(CUSTODY),
        buyer_token_account: tokens(22, STRANGER, 0),
        escrow_token_vault: tokens(21, STRANGER, 1),
        buyer: key(STRANGER),
    };
    let before = dep;
    assert_eq!(deposit_token(&mut dep), Err(HaleError::AssetMismatch));
    assert_eq!(dep, before);
}

#[test]
fn deposit_sol_refusals() {
    let escrow = new_escrow(1000, false);
    let mut other = DepositSol { escrow, custody: wallet(CUSTODY, 7), buyer: wallet(STRANGER, 4_000) };
    let before = other;
    assert_eq!(deposit_sol(&mut other), Err(HaleError::Unauthorized));
    assert_eq!(other, before);

    let mut twice = DepositSol { escrow: funded(1000, false), custody: wallet(CUSTODY, 7), buyer: wallet(BUYER, 4_000) };
    let before = twice;
    assert_eq!(deposit_sol(&mut twice), Err(HaleError::InvalidStatus));
    assert_eq!(twice, before);

    let mut poor = DepositSol { escrow, custody: wallet(CUSTODY, 7), buyer: wallet(BUYER, 999) };
    let before = poor;
    assert_eq!(deposit_sol(&mut poor), Err(HaleError::InsufficientFunds));
    assert_eq!(poor, before);

    let mut exact = DepositSol { escrow, custody: wallet(CUSTODY, 0), buyer: wallet(BUYER, 1000) };
    assert_eq!(deposit_sol(&mut exact), Ok(()));
    assert_eq!(exact.buyer.lamports, 0);
    assert_eq!(exact.custody.lamports, 1000);
}

#[test]
fn deposit_token_refusals() {
    let escrow = new_escrow(500, true);
    let good = DepositToken {
        escrow,
        escrow_key: key(CUSTODY),
        buyer_token_account: tokens(22, BUYER, 900),
        escrow_token_vault: tokens(21, CUSTODY, 1),
        buyer: key(BUYER),
    };
    let mut c = DepositToken { buyer: key(STRANGER), ..good };
    assert_eq!(deposit_token(&mut c), Err(HaleError::Unauthorized));
    let mut c = DepositToken { escrow_token_vault: tokens(21, STRANGER, 1), ..good };
    assert_eq!(deposit_token(&mut c), Err(HaleError::Unauthorized));
    let mut c = DepositToken { buyer_token_account: tokens(22, STRANGER, 900), ..good };
    assert_eq!(deposit_token(&mut c), Err(HaleError::Unauthorized));
    let mut c = DepositToken { escrow: funded(500, true), ..good };
    assert_eq!(deposit_token(&mut c), Err(HaleError::InvalidStatus));
    let mut c = DepositToken { buyer_token_account: tokens(22, BUYER, 499), ..good };
    let before = c;
    assert_eq!(deposit_token(&mut c), Err(HaleError::InsufficientFunds));
    assert_eq!(c, before);
}

#[test]
fn release_on_a_draft_is_invalid_status() {
    let mut ctx = release_ctx(new_escrow(1000, false));
    let before = ctx;
    assert_eq!(release(&mut ctx), Err(HaleError::InvalidStatus));
    assert_eq!(ctx, before);
    assert_eq!(ctx.escrow.status, EscrowStatus::Draft);

    let mut ctx = refund_ctx(new_escrow(1000, false));
    let before = ctx;
    assert_eq!(refund(&mut ctx), Err(HaleError::InvalidStatus));
    assert_eq!(ctx, before);
}

#[test]
fn settlement_happens_once() {
    let mut ctx = release_ctx(funded(1000, false));
    assert_eq!(release(&mut ctx), Ok(()));
    let after_first = ctx;
    assert_eq!(release(&mut ctx), Err(HaleError::InvalidStatus));
    assert_eq!(ctx, after_first);
    assert_eq!(ctx.custody.lamports, 4_000);
    assert_eq!(ctx.seller.lamports, 1_010);
    let mut back = refund_ctx(ctx.escrow);
    assert_eq!(refund(&mut back), Err(HaleError::InvalidStatus));

    let mut ctx = refund_ctx(funded(1000, false));
    assert_eq!(refund(&mut ctx), Ok(()));
    let after_first = ctx;
    assert_eq!(refund(&mut ctx), Err(HaleError::InvalidStatus));
    assert_eq!(ctx, after_first);
    let mut forth = release_ctx(ctx.escrow);
    assert_eq!(release(&mut forth), Err(HaleError::InvalidStatus));
}

#[test]
fn token_release_moves_exactly_the_amount() {
    let mut ctx = release_ctx(funded(500, true));
    assert_eq!(release(&mut ctx), Ok(()));
    assert_eq!(ctx.escrow.status, EscrowStatus::Released);
    assert_eq!(ctx.escrow_token_vault.amount, 300);
    assert_eq!(ctx.seller_token_account.amount, 530);
    assert_eq!(ctx.custody.lamports, 5_000);
    assert_eq!(ctx.seller.lamports, 10);
}

#[test]
fn token_refund_moves_exactly_the_amount() {
    let mut ctx = refund_ctx(funded(500, true));
    assert_eq!(refund(&mut ctx), Ok(()));
    assert_eq!(ctx.escrow.status, EscrowStatus::Refunded);
    assert_eq!(ctx.escrow_token_vault.amount, 300);
    assert_eq!(ctx.buyer_token_account.amount, 530);
    assert_eq!(ctx.custody.lamports, 5_000);
    assert_eq!(ctx.buyer.lamports, 10);
}

#[test]
fn release_refusals() {
    let good = release_ctx(funded(500, true));
    let mut c = Release { seller: wallet(STRANGER, 10), ..good };
    assert_eq!(release(&mut c), Err(HaleError::Unauthorized));
    let mut c = Release { seller_token_account: tokens(20, STRANGER, 30), ..good };
    assert_eq!(release(&mut c), Err(HaleError::Unauthorized));
    let mut c = Release { escrow_token_vault: tokens(21, STRANGER, 800), ..good };
    let before = c;
    assert_eq!(release(&mut c), Err(HaleError::Unauthorized));
    assert_eq!(c, before);
    let mut c = Release { escrow_token_vault: tokens(21, CUSTODY, 499), ..good };
    let before = c;
    assert_eq!(release(&mut c), Err(HaleError::InsufficientFunds));
    assert_eq!(c, before);

    let native = release_ctx(funded(1000, false));
    let mut c = Release { custody: wallet(CUSTODY, 999), ..native };
    let before = c;
    assert_eq!(release(&mut c), Err(HaleError::InsufficientFunds));
    assert_eq!(c, before);
    let mut c = Release { seller: wallet(BUYER, 10), ..native };
    assert_eq!(release(&mut c), Err(HaleError::Unauthorized));
    // the native path does not look at the token accounts
    let mut c = Release { escrow_token_vault: tokens(21, STRANGER, 0), ..native };
    assert_eq!(release(&mut c), Ok(()));
}

#[test]
fn refund_refusals() {
    let good = refund_ctx(funded(500, true));
    let mut c = Refund { buyer: wallet(STRANGER, 10), ..good };
    assert_eq!(refund(&mut c), Err(HaleError::Unauthorized));
    let mut c = Refund { buyer_token_account: tokens(22, STRANGER, 30), ..good };
    assert_eq!(refund(&mut c), Err(HaleError::Unauthorized));
    let mut c = Refund { escrow_token_vault: tokens(21, STRANGER, 800), ..good };
    assert_eq!(refund(&mut c), Err(HaleError::Unauthorized));
    let mut c = Refund { escrow_token_vault: tokens(21, CUSTODY, 499), ..good };
    assert_eq!(refund(&mut c), Err(HaleError::InsufficientFunds));
    let native = refund_ctx(funded(1000, false));
    let mut c = Refund { custody: wallet(CUSTODY, 999), ..native };
    let before = c;
    assert_eq!(refund(&mut c), Err(HaleError::InsufficientFunds));
    assert_eq!(c, before);
}

#[test]
fn status_only_moves_forward() {
    let mut seen = vec![];
    let escrow = new_escrow(1000, false);
    seen.push(escrow.status);
    let mut rel = release_ctx(escrow);
    assert!(release(&mut rel).is_err());
    seen.push(rel.escrow.status);
    let mut dep = DepositSol { escrow, custody: wallet(CUSTODY, 7), buyer: wallet(BUYER, 4_000) };
    assert_eq!(deposit_sol(&mut dep), Ok(()));
    seen.push(dep.escrow.status);
    let mut rel = release_ctx(dep.escrow);
    assert_eq!(release(&mut rel), Ok(()));
    seen.push(rel.escrow.status);
    let mut dep = DepositSol { escrow: rel.escrow, custody: wallet(CUSTODY, 7), buyer: wallet(BUYER, 4_000) };
    assert_eq!(deposit_sol(&mut dep), Err(HaleError::InvalidStatus));
    seen.push(dep.escrow.status);
    assert_eq!(
        seen,
        vec![
            EscrowStatus::Draft,
            EscrowStatus::Draft,
            EscrowStatus::Funded,
            EscrowStatus::Released,
            EscrowStatus::Released
        ]
    );
}

#[test]
fn service_fee_moves_exactly_the_fee() {
    let mut ctx = PayWithUsdc {
        user: key(BUYER),
        user_token_account: tokens(30, BUYER, 100),
        paymaster_token_account: tokens(31, ORACLE, 5),
    };
    assert_eq!(pay_with_usdc(&mut ctx, 40), Ok(()));
    assert_eq!(ctx.user_token_account, tokens(30, BUYER, 60));
    assert_eq!(ctx.paymaster_token_account, tokens(31, ORACLE, 45));
    let before = ctx;
    assert_eq!(pay_with_usdc(&mut ctx, 61), Err(HaleError::InsufficientFunds));
    assert_eq!(ctx, before);
    assert_eq!(pay_with_usdc(&mut ctx, 0), Ok(()));
    assert_eq!(ctx, before);
    let mut other = PayWithUsdc { user: key(STRANGER), ..before };
    assert_eq!(pay_with_usdc(&mut other, 1), Err(HaleError::Unauthorized));
    assert_eq!(other.user_token_account.amount, 60);
}

#[test]
fn transfers_between_accounts() {
    assert_eq!(
        transfer_native(wallet(1, 10), wallet(2, u64::MAX - 10), 10),
        Ok((wallet(1, 0), wallet(2, u64::MAX)))
    );
    assert_eq!(transfer_native(wallet(1, 10), wallet(2, 0), 11), Err(HaleError::InsufficientFunds));
    assert_eq!(
        transfer_token(tokens(1, 5, 10), tokens(2, 6, 1), &key(5), 3),
        Ok((tokens(1, 5, 7), tokens(2, 6, 4)))
    );
    assert_eq!(
        transfer_token(tokens(1, 5, 10), tokens(2, 6, 1), &key(6), 3),
        Err(HaleError::Unauthorized)
    );
    assert_eq!(
        transfer_token(tokens(1, 5, 10), tokens(2, 6, 1), &key(6), 11),
        Err(HaleError::Unauthorized)
    );
    assert_eq!(
        transfer_token(tokens(1, 5, 10), tokens(2, 6, 1), &key(5), 11),
        Err(HaleError::InsufficientFunds)
    );
}

#[test]
fn only_the_designated_oracle_settles() {
    for is_spl in [false, true] {
        for caller in [SELLER, BUYER, STRANGER] {
            let mut c = Release { oracle: key(caller), ..release_ctx(funded(500, is_spl)) };
            let before = c;
            assert_eq!(release(&mut c), Err(HaleError::Unauthorized));
            assert_eq!(c, before);
            assert_eq!(c.escrow.status, EscrowStatus::Funded);

            let mut c = Refund { oracle: key(caller), ..refund_ctx(funded(500, is_spl)) };
            let before = c;
            assert_eq!(refund(&mut c), Err(HaleError::Unauthorized));
            assert_eq!(c, before);
            assert_eq!(c.escrow.status, EscrowStatus::Funded);
        }
    }
    // whoever holds the role settles, also where that is not the usual key
    let mut c = Release {
        oracle: key(STRANGER),
        designated_oracle: key(STRANGER),
        ..release_ctx(funded(500, false))
    };
    assert_eq!(release(&mut c), Ok(()));
    assert_eq!(c.escrow.status, EscrowStatus::Released);
}

#[test]
fn status_is_looked_at_before_the_caller() {
    let mut c = Release { oracle: key(STRANGER), ..release_ctx(new_escrow(500, false)) };
    assert_eq!(release(&mut c), Err(HaleError::InvalidStatus));
    let mut settled = funded(500, false);
    settled.status = EscrowStatus::Refunded;
    let mut c = Refund { oracle: key(STRANGER), ..refund_ctx(settled) };
    assert_eq!(refund(&mut c), Err(HaleError::InvalidStatus));
}
