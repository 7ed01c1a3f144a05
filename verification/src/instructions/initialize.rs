//! Opening a trade: the deposit moves into the custodial vault and the
//! record binding the depositor's identity and accounts is created.

use vstd::prelude::*;

use crate::error::EscrowError;
use crate::states::escrow_account::Escrow;
use crate::states::escrow_account::EscrowAccount;
use crate::states::token_account::Pubkey;
use crate::states::token_account::TokenAccount;

verus! {

/// When an open call is accepted: both amounts are positive, no record is
/// open yet, and the depositor's release account covers the deposit.
pub open spec fn open_accepted(
    st: Escrow,
    release: TokenAccount,
    initializer_amount: u64,
    taker_amount: u64,
) -> bool {
    &&& initializer_amount >= 1
    &&& taker_amount >= 1
    &&& st.record is None
    &&& release.amount >= initializer_amount
}

/// The error a rejected open call reports: the first failing check among
/// the degenerate-amount check, the singleton check, and the balance
/// check.
pub open spec fn open_error(
    st: Escrow,
    release: TokenAccount,
    initializer_amount: u64,
    taker_amount: u64,
) -> EscrowError {
    if initializer_amount == 0 || taker_amount == 0 {
        EscrowError::InvalidAmount
    } else if st.record is Some {
        EscrowError::EscrowAlreadyOpen
    } else {
        EscrowError::InsufficientTokenBalance
    }
}

/// The record an accepted open call writes.
pub open spec fn opened_record(
    initializer: Pubkey,
    release: TokenAccount,
    receive: TokenAccount,
    initializer_amount: u64,
    taker_amount: u64,
) -> EscrowAccount {
    EscrowAccount {
        initializer_key: initializer,
        initializer_release_token_account: release.key,
        initializer_receive_token_account: receive.key,
        initializer_amount: initializer_amount,
        taker_amount: taker_amount,
    }
}

/// Opens a trade.
///
/// On acceptance the deposit of `initializer_amount` units moves from the
/// depositor's release account into the custodial vault, and the record
/// is written with the depositor's identity, both of its accounts, and
/// the pair of amounts. A rejected call reports the first failing check
/// and changes nothing.
pub fn handler(
    st: &mut Escrow,
    initializer: Pubkey,
    initializer_release_token_account: &mut TokenAccount,
    initializer_receive_token_account: &TokenAccount,
    initializer_amount: u64,
    taker_amount: u64,
) -> (r: Result<(), EscrowError>)
    requires
        old(st).wf(),
    ensures
        final(st).wf(),
        r is Ok <==> open_accepted(
            *old(st),
            *old(initializer_release_token_account),
            initializer_amount,
            taker_amount,
        ),
        final(initializer_release_token_account).key == old(initializer_release_token_account).key,
        r is Ok ==> {
            &&& final(st).record == Some(
                opened_record(
                    initializer,
                    *old(initializer_release_token_account),
                    *initializer_receive_token_account,
                    initializer_amount,
                    taker_amount,
                ),
            )
            &&& final(st).vault_amount == initializer_amount
            &&& final(initializer_release_token_account).amount == old(
                initializer_release_token_account,
            ).amount - initializer_amount
        },
        r is Err ==> {
            &&& *final(st) == *old(st)
            &&& *final(initializer_release_token_account) == *old(
                initializer_release_token_account,
            )
            &&& r == Err::<(), EscrowError>(
                open_error(
                    *old(st),
                    *old(initializer_release_token_account),
                    initializer_amount,
                    taker_amount,
                ),
            )
        },
{
    if initializer_amount == 0 || taker_amount == 0 {
        return Err(EscrowError::InvalidAmount);
    }
    if st.record.is_some() {
        return Err(EscrowError::EscrowAlreadyOpen);
    }
    if initializer_release_token_account.amount < initializer_amount {
        return Err(EscrowError::InsufficientTokenBalance);
    }
    initializer_release_token_account.amount =
        initializer_release_token_account.amount - initializer_amount;
    st.vault_amount = initializer_amount;
    st.record = Some(
        EscrowAccount {
            initializer_key: initializer,
            initializer_release_token_account: initializer_release_token_account.key,
            initializer_receive_token_account: initializer_receive_token_account.key,
            initializer_amount: initializer_amount,
            taker_amount: taker_amount,
        },
    );
    Ok(())
}

} // verus!
