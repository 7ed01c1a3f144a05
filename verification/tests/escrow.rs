use escrow_anchor::Escrow;
use escrow_anchor::EscrowAccount;
use escrow_anchor::EscrowError;
use escrow_anchor::TokenAccount;
use escrow_anchor::cancel;
use escrow_anchor::exchange;
use escrow_anchor::initialize;

fn key(tag: u8) -> [u8; 32] {
    [tag; 32]
}

fn opened(initializer_balance: u64, initializer_amount: u64, taker_amount: u64) -> (Escrow, TokenAccount, TokenAccount) {
    let mut st = Escrow::new();
    let mut release = TokenAccount { key: key(3), amount: initializer_balance };
    let receive = TokenAccount { key: key(4), amount: 0 };
    let r = initialize(&mut st, key(1), &mut release, &receive, initializer_amount, taker_amount);
    assert_eq!(r, Ok(()));
    (st, release, receive)
}

#[test]
fn open_deposits_and_binds() {
    let (st, release, _receive) = opened(1500, 1000, 500);
    assert_eq!(st.vault_amount, 1000);
    assert_eq!(release.amount, 500);
    let rec = st.record.unwrap();
    assert_eq!(rec.initializer_key, key(1));
    assert_eq!(rec.initializer_release_token_account, key(3));
    assert_eq!(rec.initializer_receive_token_account, key(4));
    assert_eq!(rec.initializer_amount, 1000);
    assert_eq!(rec.taker_amount, 500);
}

#[test]
fn open_zero_initializer_amount_rejected() {
    let mut st = Escrow::new();
    let mut release = TokenAccount { key: key(3), amount: 1000 };
    let receive = TokenAccount { key: key(4), amount: 0 };
    let r = initialize(&mut st, key(1), &mut release, &receive, 0, 500);
    assert_eq!(r, Err(EscrowError::InvalidAmount));
    assert!(st.record.is_none());
    assert_eq!(st.vault_amount, 0);
    assert_eq!(release.amount, 1000);
}

#[test]
fn open_zero_taker_amount_rejected() {
    let mut st = Escrow::new();
    let mut release = TokenAccount { key: key(3), amount: 1000 };
    let receive = TokenAccount { key: key(4), amount: 0 };
    let r = initialize(&mut st, key(1), &mut release, &receive, 1000, 0);
    assert_eq!(r, Err(EscrowError::InvalidAmount));
    assert!(st.record.is_none());
    assert_eq!(release.amount, 1000);
}

#[test]
fn open_insufficient_deposit_rejected() {
    let mut st = Escrow::new();
    let mut release = TokenAccount { key: key(3), amount: 999 };
    let receive = TokenAccount { key: key(4), amount: 0 };
    let r = initialize(&mut st, key(1), &mut release, &receive, 1000, 500);
    assert_eq!(r, Err(EscrowError::InsufficientTokenBalance));
    assert!(st.record.is_none());
    assert_eq!(release.amount, 999);
}

#[test]
fn open_twice_rejected() {
    let (mut st, _release, _receive) = opened(1000, 1000, 500);
    let mut release2 = TokenAccount { key: key(13), amount: 100 };
    let receive2 = TokenAccount { key: key(14), amount: 0 };
    let r = initialize(&mut st, key(11), &mut release2, &receive2, 10, 10);
    assert_eq!(r, Err(EscrowError::EscrowAlreadyOpen));
    assert_eq!(release2.amount, 100);
    assert_eq!(st.vault_amount, 1000);
}

#[test]
fn full_fulfillment_settles() {
    // Open(1000, 500) then a covering payment of 500: the depositor
    // receives the whole 500 of counter-asset, the taker the whole 1000
    // of the deposit, and the trade closes.
    let (mut st, _release, _receive) = opened(1000, 1000, 500);
    let mut taker_release = TokenAccount { key: key(5), amount: 700 };
    let mut taker_receive = TokenAccount { key: key(6), amount: 0 };
    let mut initializer_receive = TokenAccount { key: key(4), amount: 0 };
    let r = exchange(&mut st, &mut taker_release, &mut taker_receive, &mut initializer_receive, key(1), 500);
    assert_eq!(r, Ok(()));
    assert_eq!(initializer_receive.amount, 500);
    assert_eq!(taker_release.amount, 200);
    assert_eq!(taker_receive.amount, 1000);
    assert!(st.record.is_none());
    assert_eq!(st.vault_amount, 0);
}

#[test]
fn overpayment_settles_like_exact_payment() {
    // A payment above the remainder moves only the remainder.
    let (mut st, _release, _receive) = opened(1000, 1000, 500);
    let mut taker_release = TokenAccount { key: key(5), amount: 700 };
    let mut taker_receive = TokenAccount { key: key(6), amount: 0 };
    let mut initializer_receive = TokenAccount { key: key(4), amount: 0 };
    let r = exchange(&mut st, &mut taker_release, &mut taker_receive, &mut initializer_receive, key(1), 650);
    assert_eq!(r, Ok(()));
    assert_eq!(initializer_receive.amount, 500);
    assert_eq!(taker_release.amount, 200);
    assert_eq!(taker_receive.amount, 1000);
    assert!(st.record.is_none());
}

#[test]
fn partial_fulfillment_releases_proportional_share() {
    // Open(1000, 500) then a payment of 100: the released share is
    // round(100 / 500 * 1000) = 200, the record becomes (800, 400), and
    // the vault holds the 800 still owed.
    let (mut st, _release, _receive) = opened(1000, 1000, 500);
    let mut taker_release = TokenAccount { key: key(5), amount: 100 };
    let mut taker_receive = TokenAccount { key: key(6), amount: 0 };
    let mut initializer_receive = TokenAccount { key: key(4), amount: 0 };
    let r = exchange(&mut st, &mut taker_release, &mut taker_receive, &mut initializer_receive, key(1), 100);
    assert_eq!(r, Ok(()));
    assert_eq!(taker_receive.amount, 200);
    assert_eq!(initializer_receive.amount, 100);
    assert_eq!(taker_release.amount, 0);
    let rec = st.record.unwrap();
    assert_eq!(rec.initializer_amount, 800);
    assert_eq!(rec.taker_amount, 400);
    assert_eq!(st.vault_amount, 800);
}

#[test]
fn repeated_partials_settle_without_dust() {
    // Payments of 100, 150 and finally 250 sum to the whole 500: the
    // last one covers the remainder exactly and settles the trade with
    // no residue on either side.
    let (mut st, _release, _receive) = opened(1000, 1000, 500);
    let mut taker_release = TokenAccount { key: key(5), amount: 500 };
    let mut taker_receive = TokenAccount { key: key(6), amount: 0 };
    let mut initializer_receive = TokenAccount { key: key(4), amount: 0 };
    let r1 = exchange(&mut st, &mut taker_release, &mut taker_receive, &mut initializer_receive, key(1), 100);
    assert_eq!(r1, Ok(()));
    let r2 = exchange(&mut st, &mut taker_release, &mut taker_receive, &mut initializer_receive, key(1), 150);
    assert_eq!(r2, Ok(()));
    let rec = st.record.unwrap();
    assert_eq!(rec.taker_amount, 250);
    let r3 = exchange(&mut st, &mut taker_release, &mut taker_receive, &mut initializer_receive, key(1), 250);
    assert_eq!(r3, Ok(()));
    assert!(st.record.is_none());
    assert_eq!(st.vault_amount, 0);
    assert_eq!(taker_release.amount, 0);
    assert_eq!(initializer_receive.amount, 500);
    assert_eq!(taker_receive.amount, 1000);
}

#[test]
fn rounding_may_exhaust_deposit_before_counter() {
    // Open(1, 500): a payment of 499 releases round(499 / 500 * 1) = 1,
    // the whole deposit, while 1 of counter-asset is still owed. The
    // record stays open at (0, 1); the covering payment of 1 then
    // settles it, moving nothing more out of the empty vault.
    let (mut st, _release, _receive) = opened(1, 1, 500);
    let mut taker_release = TokenAccount { key: key(5), amount: 500 };
    let mut taker_receive = TokenAccount { key: key(6), amount: 0 };
    let mut initializer_receive = TokenAccount { key: key(4), amount: 0 };
    let r = exchange(&mut st, &mut taker_release, &mut taker_receive, &mut initializer_receive, key(1), 499);
    assert_eq!(r, Ok(()));
    assert_eq!(taker_receive.amount, 1);
    let rec = st.record.unwrap();
    assert_eq!(rec.initializer_amount, 0);
    assert_eq!(rec.taker_amount, 1);
    assert_eq!(st.vault_amount, 0);
    let r2 = exchange(&mut st, &mut taker_release, &mut taker_receive, &mut initializer_receive, key(1), 1);
    assert_eq!(r2, Ok(()));
    assert!(st.record.is_none());
    assert_eq!(taker_receive.amount, 1);
    assert_eq!(initializer_receive.amount, 500);
}

#[test]
fn zero_payment_changes_nothing() {
    let (mut st, _release, _receive) = opened(1000, 1000, 500);
    let mut taker_release = TokenAccount { key: key(5), amount: 10 };
    let mut taker_receive = TokenAccount { key: key(6), amount: 0 };
    let mut initializer_receive = TokenAccount { key: key(4), amount: 0 };
    let r = exchange(&mut st, &mut taker_release, &mut taker_receive, &mut initializer_receive, key(1), 0);
    assert_eq!(r, Ok(()));
    assert_eq!(taker_release.amount, 10);
    assert_eq!(taker_receive.amount, 0);
    assert_eq!(initializer_receive.amount, 0);
    let rec = st.record.unwrap();
    assert_eq!(rec.initializer_amount, 1000);
    assert_eq!(rec.taker_amount, 500);
}

#[test]
fn fulfill_insufficient_balance_rejected() {
    let (mut st, _release, _receive) = opened(1000, 1000, 500);
    let mut taker_release = TokenAccount { key: key(5), amount: 50 };
    let mut taker_receive = TokenAccount { key: key(6), amount: 0 };
    let mut initializer_receive = TokenAccount { key: key(4), amount: 0 };
    let r = exchange(&mut st, &mut taker_release, &mut taker_receive, &mut initializer_receive, key(1), 100);
    assert_eq!(r, Err(EscrowError::InsufficientTokenBalance));
    assert_eq!(taker_release.amount, 50);
    assert_eq!(st.vault_amount, 1000);
    assert_eq!(st.record.unwrap().taker_amount, 500);
}

#[test]
fn fulfill_mismatched_receive_account_rejected() {
    // The supplied receive account does not match the one bound at open
    // time: the binding error comes back and nothing moves.
    let (mut st, _release, _receive) = opened(1000, 1000, 500);
    let mut taker_release = TokenAccount { key: key(5), amount: 500 };
    let mut taker_receive = TokenAccount { key: key(6), amount: 0 };
    let mut wrong_receive = TokenAccount { key: key(9), amount: 0 };
    let r = exchange(&mut st, &mut taker_release, &mut taker_receive, &mut wrong_receive, key(1), 100);
    assert_eq!(r, Err(EscrowError::InvalidInitializerReceiveTokenAccount));
    assert_eq!(taker_release.amount, 500);
    assert_eq!(taker_receive.amount, 0);
    assert_eq!(wrong_receive.amount, 0);
    assert_eq!(st.vault_amount, 1000);
    assert_eq!(st.record.unwrap().initializer_amount, 1000);
}

#[test]
fn fulfill_mismatched_initializer_rejected() {
    let (mut st, _release, _receive) = opened(1000, 1000, 500);
    let mut taker_release = TokenAccount { key: key(5), amount: 500 };
    let mut taker_receive = TokenAccount { key: key(6), amount: 0 };
    let mut initializer_receive = TokenAccount { key: key(4), amount: 0 };
    let r = exchange(&mut st, &mut taker_release, &mut taker_receive, &mut initializer_receive, key(9), 100);
    assert_eq!(r, Err(EscrowError::InvalidInitializer));
    assert_eq!(st.vault_amount, 1000);
}

#[test]
fn fulfill_without_open_record_rejected() {
    let mut st = Escrow::new();
    let mut taker_release = TokenAccount { key: key(5), amount: 500 };
    let mut taker_receive = TokenAccount { key: key(6), amount: 0 };
    let mut initializer_receive = TokenAccount { key: key(4), amount: 0 };
    let r = exchange(&mut st, &mut taker_release, &mut taker_receive, &mut initializer_receive, key(1), 100);
    assert_eq!(r, Err(EscrowError::EscrowNotOpen));
}

#[test]
fn cancel_refunds_whole_vault() {
    let (mut st, mut release, _receive) = opened(1500, 1000, 500);
    assert_eq!(release.amount, 500);
    let r = cancel(&mut st, key(1), &mut release);
    assert_eq!(r, Ok(()));
    assert_eq!(release.amount, 1500);
    assert!(st.record.is_none());
    assert_eq!(st.vault_amount, 0);
}

#[test]
fn cancel_after_partial_refunds_remainder() {
    let (mut st, mut release, _receive) = opened(1000, 1000, 500);
    let mut taker_release = TokenAccount { key: key(5), amount: 100 };
    let mut taker_receive = TokenAccount { key: key(6), amount: 0 };
    let mut initializer_receive = TokenAccount { key: key(4), amount: 0 };
    let r = exchange(&mut st, &mut taker_release, &mut taker_receive, &mut initializer_receive, key(1), 100);
    assert_eq!(r, Ok(()));
    let r2 = cancel(&mut st, key(1), &mut release);
    assert_eq!(r2, Ok(()));
    assert_eq!(release.amount, 800);
    assert!(st.record.is_none());
}

#[test]
fn cancel_by_stranger_rejected() {
    // A caller other than the recorded depositor is turned away with the
    // authorization error; vault and record are untouched.
    let (mut st, mut release, _receive) = opened(1500, 1000, 500);
    let r = cancel(&mut st, key(9), &mut release);
    assert_eq!(r, Err(EscrowError::InvalidInitializer));
    assert_eq!(release.amount, 500);
    assert_eq!(st.vault_amount, 1000);
    assert_eq!(st.record.unwrap().initializer_amount, 1000);
}

#[test]
fn cancel_with_wrong_release_account_rejected() {
    let (mut st, _release, _receive) = opened(1500, 1000, 500);
    let mut wrong_release = TokenAccount { key: key(9), amount: 0 };
    let r = cancel(&mut st, key(1), &mut wrong_release);
    assert_eq!(r, Err(EscrowError::InvalidInitializerReleaseTokenAccount));
    assert_eq!(wrong_release.amount, 0);
    assert_eq!(st.vault_amount, 1000);
}

#[test]
fn cancel_without_open_record_rejected() {
    let mut st = Escrow::new();
    let mut release = TokenAccount { key: key(3), amount: 0 };
    let r = cancel(&mut st, key(1), &mut release);
    assert_eq!(r, Err(EscrowError::EscrowNotOpen));
}

#[test]
fn proportional_share_rounds_to_nearest() {
    // round(1 * 3 / 7) = round(0.43) = 0; round(5 * 3 / 7) = round(2.14) = 2;
    // a half rounds up: round(1 * 1 / 2) = 1.
    assert_eq!(escrow_anchor::math::taker_receive_amount(1, 3, 7), 0);
    assert_eq!(escrow_anchor::math::taker_receive_amount(5, 3, 7), 2);
    assert_eq!(escrow_anchor::math::taker_receive_amount(1, 1, 2), 1);
    assert_eq!(escrow_anchor::math::taker_receive_amount(100, 1000, 500), 200);
}

#[test]
fn proportional_share_handles_large_amounts() {
    // The product of the two amounts does not fit 64 bits; the share is
    // still exact: round((2^63) * (2^63 + 1) / (2^63 + 2)) = 2^63.
    // With m = 2^63: m * (m + 1) = (m + 2) * (m - 1) + 2, so the
    // quotient is m - 1 with a remainder far below half the divisor.
    let big: u64 = 1 << 63;
    assert_eq!(escrow_anchor::math::taker_receive_amount(big, big + 1, big + 2), big - 1);
}

#[test]
fn vault_authority_matches_ledger_derivation() {
    // The wrapped derivation must agree with the ledger's own, and be
    // deterministic across calls.
    let program_id = key(42);
    let ours = escrow_anchor::authority::derive_vault_authority(&program_id).unwrap();
    let pid = anchor_lang::prelude::Pubkey::new_from_array(program_id);
    let (addr, bump) = anchor_lang::prelude::Pubkey::find_program_address(&[b"vault-authority"], &pid);
    assert_eq!(ours.0, addr.to_bytes());
    assert_eq!(ours.1, bump);
    let again = escrow_anchor::authority::derive_vault_authority(&program_id).unwrap();
    assert_eq!(ours.0, again.0);
    assert_eq!(ours.1, again.1);
}

#[test]
fn record_serializes_to_fixed_layout() {
    let rec = EscrowAccount {
        initializer_key: key(1),
        initializer_release_token_account: key(3),
        initializer_receive_token_account: key(4),
        initializer_amount: 1000,
        taker_amount: 500,
    };
    let bytes = rec.to_bytes();
    assert_eq!(bytes.len(), 120);
    assert_eq!(&bytes[0..8], b"escrowv1");
    assert_eq!(&bytes[8..40], &[1u8; 32]);
    assert_eq!(&bytes[40..72], &[3u8; 32]);
    assert_eq!(&bytes[72..104], &[4u8; 32]);
    assert_eq!(&bytes[104..112], &1000u64.to_le_bytes());
    assert_eq!(&bytes[112..120], &500u64.to_le_bytes());
}

#[test]
fn record_round_trips_through_bytes() {
    let rec = EscrowAccount {
        initializer_key: key(7),
        initializer_release_token_account: key(8),
        initializer_receive_token_account: key(9),
        initializer_amount: u64::MAX,
        taker_amount: 1,
    };
    let bytes = rec.to_bytes();
    let back = EscrowAccount::try_from_bytes(&bytes).unwrap();
    assert_eq!(back.initializer_key, rec.initializer_key);
    assert_eq!(back.initializer_release_token_account, rec.initializer_release_token_account);
    assert_eq!(back.initializer_receive_token_account, rec.initializer_receive_token_account);
    assert_eq!(back.initializer_amount, rec.initializer_amount);
    assert_eq!(back.taker_amount, rec.taker_amount);
}

#[test]
fn record_rejects_bad_bytes() {
    let rec = EscrowAccount {
        initializer_key: key(1),
        initializer_release_token_account: key(3),
        initializer_receive_token_account: key(4),
        initializer_amount: 1000,
        taker_amount: 500,
    };
    let mut bytes = rec.to_bytes();
    assert!(EscrowAccount::try_from_bytes(&bytes[0..119]).is_none());
    bytes[0] = 0;
    assert!(EscrowAccount::try_from_bytes(&bytes).is_none());
}

#[test]
fn key_eq_compares_addresses() {
    let mut a = key(1);
    let b = key(1);
    assert!(escrow_anchor::states::token_account::key_eq(&a, &b));
    a[31] = 2;
    assert!(!escrow_anchor::states::token_account::key_eq(&a, &b));
}
