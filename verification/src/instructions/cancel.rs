//! Cancelling an open trade: the depositor reclaims the vault's whole
//! balance and the record closes.

use vstd::prelude::*;

use crate::error::EscrowError;
use crate::states::escrow_account::Escrow;
use crate::states::token_account::Pubkey;
use crate::states::token_account::TokenAccount;
use crate::states::token_account::key_eq;

verus! {

/// When a cancel call is accepted: a record is open, the caller is the
/// depositor that opened it, and the supplied refund account matches the
/// record's bound release account.
pub open spec fn cancel_accepted(
    st: Escrow,
    initializer: Pubkey,
    release: TokenAccount,
) -> bool {
    match st.record {
        Some(rec) => {
            &&& initializer@ == rec.initializer_key@
            &&& release.key@ == rec.initializer_release_token_account@
        },
        None => false,
    }
}

/// The error a rejected cancel call reports: the first failing check
/// among the open-record check, the identity binding, and the
/// release-account binding.
pub open spec fn cancel_error(st: Escrow, initializer: Pubkey, release: TokenAccount) -> EscrowError {
    match st.record {
        Some(rec) => {
            if initializer@ != rec.initializer_key@ {
                EscrowError::InvalidInitializer
            } else {
                EscrowError::InvalidInitializerReleaseTokenAccount
            }
        },
        None => EscrowError::EscrowNotOpen,
    }
}

/// Cancels the open trade.
///
/// On acceptance the vault's whole balance — the deposit not yet claimed
/// by any taker — returns to the depositor's bound release account, and
/// the record closes. A rejected call reports the first failing check
/// and changes nothing; in particular a caller other than the recorded
/// depositor is turned away with the authorization error.
pub fn handler(
    st: &mut Escrow,
    initializer: Pubkey,
    initializer_release_token_account: &mut TokenAccount,
) -> (r: Result<(), EscrowError>)
    requires
        old(st).wf(),
        old(initializer_release_token_account).amount + old(st).vault_amount <= u64::MAX,
    ensures
        final(st).wf(),
        r is Ok <==> cancel_accepted(
            *old(st),
            initializer,
            *old(initializer_release_token_account),
        ),
        final(initializer_release_token_account).key == old(
            initializer_release_token_account,
        ).key,
        r is Ok ==> {
            &&& final(initializer_release_token_account).amount == old(
                initializer_release_token_account,
            ).amount + old(st).vault_amount
            &&& final(st).record is None
            &&& final(st).vault_amount == 0
        },
        r is Err ==> {
            &&& *final(st) == *old(st)
            &&& *final(initializer_release_token_account) == *old(
                initializer_release_token_account,
            )
            &&& r == Err::<(), EscrowError>(
                cancel_error(*old(st), initializer, *old(initializer_release_token_account)),
            )
        },
{
    let rec = match st.record {
        Some(rec) => rec,
        None => {
            return Err(EscrowError::EscrowNotOpen);
        },
    };
    if !key_eq(&initializer, &rec.initializer_key) {
        return Err(EscrowError::InvalidInitializer);
    }
    if !key_eq(&initializer_release_token_account.key, &rec.initializer_release_token_account) {
        return Err(EscrowError::InvalidInitializerReleaseTokenAccount);
    }
    initializer_release_token_account.amount = initializer_release_token_account.amount
        + st.vault_amount;
    st.vault_amount = 0;
    st.record = None;
    Ok(())
}

} // verus!
