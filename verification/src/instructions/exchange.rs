//! Fulfilling a trade, fully or in part.
//!
//! A payment that covers the whole remaining counter-asset settles the
//! trade: the depositor is paid what it is owed, the taker drains the
//! vault, and the record closes. A smaller payment releases the
//! proportional share of the deposit and leaves the record open with
//! both amounts reduced.

use vstd::prelude::*;

use crate::error::EscrowError;
use crate::math::proportional_share;
use crate::math::lemma_proportional_share_bounds;
use crate::math::lemma_partial_fill_ratio;
use crate::math::taker_receive_amount;
use crate::states::escrow_account::Escrow;
use crate::states::escrow_account::EscrowAccount;
use crate::states::token_account::Pubkey;
use crate::states::token_account::TokenAccount;
use crate::states::token_account::key_eq;

verus! {

/// The counter-asset the taker pays this call: the whole remainder for a
/// covering payment, the offered amount otherwise.
pub open spec fn counter_payment(rec: EscrowAccount, exchange_amount: u64) -> int {
    if exchange_amount >= rec.taker_amount {
        rec.taker_amount as int
    } else {
        exchange_amount as int
    }
}

/// The deposit released to the taker this call: the whole remainder for
/// a covering payment, the rounded proportional share otherwise.
pub open spec fn deposit_payment(rec: EscrowAccount, exchange_amount: u64) -> int {
    if exchange_amount >= rec.taker_amount {
        rec.initializer_amount as int
    } else {
        proportional_share(
            exchange_amount as int,
            rec.initializer_amount as int,
            rec.taker_amount as int,
        )
    }
}

/// The record after an accepted fulfillment: gone for a covering
/// payment, otherwise open with both amounts reduced by this call's two
/// payments.
pub open spec fn record_after_fulfill(rec: EscrowAccount, exchange_amount: u64) -> Option<
    EscrowAccount,
> {
    if exchange_amount >= rec.taker_amount {
        None
    } else {
        Some(
            EscrowAccount {
                initializer_key: rec.initializer_key,
                initializer_release_token_account: rec.initializer_release_token_account,
                initializer_receive_token_account: rec.initializer_receive_token_account,
                initializer_amount: (rec.initializer_amount - deposit_payment(
                    rec,
                    exchange_amount,
                )) as u64,
                taker_amount: (rec.taker_amount - exchange_amount) as u64,
            },
        )
    }
}

/// When a fulfillment is accepted: a record is open, the taker's paying
/// account covers this call's counter-asset payment, and the supplied
/// receive account and depositor identity match the record's bindings.
pub open spec fn fulfill_accepted(
    st: Escrow,
    taker_release: TokenAccount,
    initializer_receive: TokenAccount,
    initializer: Pubkey,
    exchange_amount: u64,
) -> bool {
    match st.record {
        Some(rec) => {
            &&& taker_release.amount >= counter_payment(rec, exchange_amount)
            &&& initializer_receive.key@ == rec.initializer_receive_token_account@
            &&& initializer@ == rec.initializer_key@
        },
        None => false,
    }
}

/// The error a rejected fulfillment reports: the first failing check
/// among the open-record check, the balance check, the receive-account
/// binding, and the identity binding.
pub open spec fn fulfill_error(
    st: Escrow,
    taker_release: TokenAccount,
    initializer_receive: TokenAccount,
    initializer: Pubkey,
    exchange_amount: u64,
) -> EscrowError {
    match st.record {
        Some(rec) => {
            if taker_release.amount < counter_payment(rec, exchange_amount) {
                EscrowError::InsufficientTokenBalance
            } else if initializer_receive.key@ != rec.initializer_receive_token_account@ {
                EscrowError::InvalidInitializerReceiveTokenAccount
            } else {
                EscrowError::InvalidInitializer
            }
        },
        None => EscrowError::EscrowNotOpen,
    }
}

/// Fulfills a trade against the open record.
///
/// On acceptance the taker pays this call's counter-asset amount to the
/// depositor's bound receive account, the matching deposit leaves the
/// vault for the taker's receive account, and the record either closes
/// (covering payment) or continues with both amounts reduced. A rejected
/// call reports the first failing check and changes nothing.
pub fn handler(
    st: &mut Escrow,
    taker_release_token_account: &mut TokenAccount,
    taker_receive_token_account: &mut TokenAccount,
    initializer_receive_token_account: &mut TokenAccount,
    initializer: Pubkey,
    exchange_amount: u64,
) -> (r: Result<(), EscrowError>)
    requires
        old(st).wf(),
        old(taker_receive_token_account).amount + old(st).vault_amount <= u64::MAX,
        old(initializer_receive_token_account).amount + exchange_amount <= u64::MAX,
    ensures
        final(st).wf(),
        r is Ok <==> fulfill_accepted(
            *old(st),
            *old(taker_release_token_account),
            *old(initializer_receive_token_account),
            initializer,
            exchange_amount,
        ),
        final(taker_release_token_account).key == old(taker_release_token_account).key,
        final(taker_receive_token_account).key == old(taker_receive_token_account).key,
        final(initializer_receive_token_account).key == old(
            initializer_receive_token_account,
        ).key,
        r is Ok ==> match old(st).record {
            Some(rec) => {
                &&& final(taker_release_token_account).amount == old(
                    taker_release_token_account,
                ).amount - counter_payment(rec, exchange_amount)
                &&& final(initializer_receive_token_account).amount == old(
                    initializer_receive_token_account,
                ).amount + counter_payment(rec, exchange_amount)
                &&& final(taker_receive_token_account).amount == old(
                    taker_receive_token_account,
                ).amount + deposit_payment(rec, exchange_amount)
                &&& final(st).record == record_after_fulfill(rec, exchange_amount)
                &&& final(st).vault_amount == rec.initializer_amount - deposit_payment(
                    rec,
                    exchange_amount,
                )
            },
            None => false,
        },
        r is Err ==> {
            &&& *final(st) == *old(st)
            &&& *final(taker_release_token_account) == *old(taker_release_token_account)
            &&& *final(taker_receive_token_account) == *old(taker_receive_token_account)
            &&& *final(initializer_receive_token_account) == *old(
                initializer_receive_token_account,
            )
            &&& r == Err::<(), EscrowError>(
                fulfill_error(
                    *old(st),
                    *old(taker_release_token_account),
                    *old(initializer_receive_token_account),
                    initializer,
                    exchange_amount,
                ),
            )
        },
{
    let rec = match st.record {
        Some(rec) => rec,
        None => {
            return Err(EscrowError::EscrowNotOpen);
        },
    };
    let counter = if exchange_amount >= rec.taker_amount {
        rec.taker_amount
    } else {
        exchange_amount
    };
    if taker_release_token_account.amount < counter {
        return Err(EscrowError::InsufficientTokenBalance);
    }
    if !key_eq(&initializer_receive_token_account.key, &rec.initializer_receive_token_account) {
        return Err(EscrowError::InvalidInitializerReceiveTokenAccount);
    }
    if !key_eq(&initializer, &rec.initializer_key) {
        return Err(EscrowError::InvalidInitializer);
    }
    if exchange_amount >= rec.taker_amount {
        taker_release_token_account.amount = taker_release_token_account.amount
            - rec.taker_amount;
        initializer_receive_token_account.amount = initializer_receive_token_account.amount
            + rec.taker_amount;
        taker_receive_token_account.amount = taker_receive_token_account.amount + st.vault_amount;
        st.vault_amount = 0;
        st.record = None;
    } else {
        let released = taker_receive_amount(
            exchange_amount,
            rec.initializer_amount,
            rec.taker_amount,
        );
        taker_release_token_account.amount = taker_release_token_account.amount - exchange_amount;
        initializer_receive_token_account.amount = initializer_receive_token_account.amount
            + exchange_amount;
        taker_receive_token_account.amount = taker_receive_token_account.amount + released;
        st.vault_amount = st.vault_amount - released;
        st.record = Some(
            EscrowAccount {
                initializer_key: rec.initializer_key,
                initializer_release_token_account: rec.initializer_release_token_account,
                initializer_receive_token_account: rec.initializer_receive_token_account,
                initializer_amount: rec.initializer_amount - released,
                taker_amount: rec.taker_amount - exchange_amount,
            },
        );
    }
    Ok(())
}

/// Every payment that covers the whole remaining counter-asset settles
/// the trade the same way: the depositor is paid exactly the remaining
/// counter-asset, the taker is paid exactly the remaining deposit, and
/// the record closes. In particular the final payment of a run of
/// partial fulfillments, the one that meets the remainder exactly,
/// settles just as a one-shot full fulfillment does.
pub proof fn lemma_full_fill_uniform(rec: EscrowAccount, e1: u64, e2: u64)
    requires
        e1 >= rec.taker_amount,
        e2 >= rec.taker_amount,
    ensures
        counter_payment(rec, e1) == counter_payment(rec, e2),
        deposit_payment(rec, e1) == deposit_payment(rec, e2),
        record_after_fulfill(rec, e1) == record_after_fulfill(rec, e2),
        counter_payment(rec, e1) == rec.taker_amount,
        deposit_payment(rec, e1) == rec.initializer_amount,
        record_after_fulfill(rec, e1) is None,
{
}

/// A fulfillment closes the record exactly when its payment covers the
/// whole remaining counter-asset; a record is never left open with the
/// counter-asset side exhausted.
pub proof fn lemma_close_iff_covering(rec: EscrowAccount, exchange_amount: u64)
    ensures
        record_after_fulfill(rec, exchange_amount) is None <==> exchange_amount
            >= rec.taker_amount,
{
}

/// Bookkeeping conservation of one fulfillment: what a call pays out and
/// what remains always add back up to what the record held, on both
/// sides of the trade. No amount is created or stranded at any step, so
/// over any run of fulfillments that ends in a covering payment the
/// taker receives in total exactly the original deposit and the
/// depositor exactly the original counter-amount.
pub proof fn lemma_fulfill_conservation(rec: EscrowAccount, exchange_amount: u64)
    ensures
        match record_after_fulfill(rec, exchange_amount) {
            Some(next) => {
                &&& deposit_payment(rec, exchange_amount) + next.initializer_amount
                    == rec.initializer_amount
                &&& counter_payment(rec, exchange_amount) + next.taker_amount == rec.taker_amount
            },
            None => {
                &&& deposit_payment(rec, exchange_amount) == rec.initializer_amount
                &&& counter_payment(rec, exchange_amount) == rec.taker_amount
            },
        },
{
    if exchange_amount < rec.taker_amount {
        lemma_proportional_share_bounds(
            exchange_amount as int,
            rec.initializer_amount as int,
            rec.taker_amount as int,
        );
    }
}

/// A run of payments against a record, each applied to the record its
/// predecessors left: every payment but the last is partial, and the
/// last covers the remainder.
pub open spec fn covering_run(rec: EscrowAccount, fills: Seq<u64>) -> bool
    decreases fills.len(),
{
    if fills.len() == 0 {
        false
    } else if fills.len() == 1 {
        fills[0] >= rec.taker_amount
    } else {
        fills[0] < rec.taker_amount && covering_run(
            record_after_fulfill(rec, fills[0]).unwrap(),
            fills.drop_first(),
        )
    }
}

/// The deposit paid to the taker over a run of payments, each applied
/// to the record its predecessors left; a payment that closes the
/// record ends the run.
pub open spec fn deposit_paid_over(rec: EscrowAccount, fills: Seq<u64>) -> int
    decreases fills.len(),
{
    if fills.len() == 0 {
        0
    } else {
        match record_after_fulfill(rec, fills[0]) {
            Some(next) => deposit_payment(rec, fills[0]) + deposit_paid_over(
                next,
                fills.drop_first(),
            ),
            None => deposit_payment(rec, fills[0]),
        }
    }
}

/// The counter-asset paid to the depositor over a run of payments.
pub open spec fn counter_paid_over(rec: EscrowAccount, fills: Seq<u64>) -> int
    decreases fills.len(),
{
    if fills.len() == 0 {
        0
    } else {
        match record_after_fulfill(rec, fills[0]) {
            Some(next) => counter_payment(rec, fills[0]) + counter_paid_over(
                next,
                fills.drop_first(),
            ),
            None => counter_payment(rec, fills[0]),
        }
    }
}

/// Repeated partial fulfillments leave no dust: over any run of
/// payments whose last one covers the remainder, the taker receives in
/// total exactly the deposit the record held at the start, and the
/// depositor exactly the counter-amount it was owed — whatever the
/// rounding of each step did, and however the payments were split.
pub proof fn lemma_covering_run_settles_exactly(rec: EscrowAccount, fills: Seq<u64>)
    requires
        covering_run(rec, fills),
    ensures
        deposit_paid_over(rec, fills) == rec.initializer_amount,
        counter_paid_over(rec, fills) == rec.taker_amount,
    decreases fills.len(),
{
    lemma_fulfill_conservation(rec, fills[0]);
    if fills.len() > 1 {
        let next = record_after_fulfill(rec, fills[0]).unwrap();
        lemma_covering_run_settles_exactly(next, fills.drop_first());
    }
}

/// The proportionality bound of a partial fulfillment, stated on the
/// record: the amounts left open stay in the trade's original ratio up
/// to the half-unit of rounding, measured by cross-multiplication.
pub proof fn lemma_partial_fill_keeps_ratio(rec: EscrowAccount, exchange_amount: u64)
    requires
        rec.taker_amount >= 1,
        exchange_amount < rec.taker_amount,
    ensures
        match record_after_fulfill(rec, exchange_amount) {
            Some(next) => {
                &&& 2 * (next.initializer_amount * rec.taker_amount - next.taker_amount
                    * rec.initializer_amount) <= rec.taker_amount
                &&& 2 * (next.taker_amount * rec.initializer_amount - next.initializer_amount
                    * rec.taker_amount) <= rec.taker_amount
            },
            None => false,
        },
{
    let a = rec.initializer_amount as int;
    let b = rec.taker_amount as int;
    let e = exchange_amount as int;
    lemma_proportional_share_bounds(e, a, b);
    lemma_partial_fill_ratio(a, b, e);
}

} // verus!
