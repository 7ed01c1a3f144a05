//! A verified model of a two-party escrow protocol.
//!
//! A depositor locks a quantity of one fungible asset in a custodial vault
//! and names the quantity of a counter-asset it wants in return. A taker
//! may fulfill the trade, fully or in proportional parts, and the depositor
//! may cancel an untouched remainder. The modules here hold the persistent
//! state, the three operations with their full contracts, and the
//! arithmetic of proportional fulfillment.

use vstd::prelude::*;

pub mod authority;
pub mod error;
pub mod math;
pub mod states;
pub mod instructions;

pub use error::EscrowError;
pub use states::escrow_account::EscrowAccount;
pub use states::escrow_account::Escrow;
pub use states::token_account::TokenAccount;
pub use states::token_account::Pubkey;

verus! {

/// Opens a trade: moves the deposit into the custodial vault and writes
/// the record binding the depositor's identity, accounts and amounts.
/// See [`instructions::initialize::handler`] for the full contract.
pub fn initialize(
    st: &mut Escrow,
    initializer: Pubkey,
    initializer_release_token_account: &mut TokenAccount,
    initializer_receive_token_account: &TokenAccount,
    initializer_amount: u64,
    taker_amount: u64,
) -> (r: Result<(), EscrowError>)
    requires
        old(st).wf(),
    ensures
        final(st).wf(),
        r is Ok <==> instructions::initialize::open_accepted(
            *old(st),
            *old(initializer_release_token_account),
            initializer_amount,
            taker_amount,
        ),
        final(initializer_release_token_account).key == old(initializer_release_token_account).key,
        r is Ok ==> {
            &&& final(st).record == Some(
                instructions::initialize::opened_record(
                    initializer,
                    *old(initializer_release_token_account),
                    *initializer_receive_token_account,
                    initializer_amount,
                    taker_amount,
                ),
            )
            &&& final(st).vault_amount == initializer_amount
            &&& final(initializer_release_token_account).amount == old(
                initializer_release_token_account,
            ).amount - initializer_amount
        },
        r is Err ==> {
            &&& *final(st) == *old(st)
            &&& *final(initializer_release_token_account) == *old(
                initializer_release_token_account,
            )
            &&& r == Err::<(), EscrowError>(
                instructions::initialize::open_error(
                    *old(st),
                    *old(initializer_release_token_account),
                    initializer_amount,
                    taker_amount,
                ),
            )
        },
{
    instructions::initialize::handler(
        st,
        initializer,
        initializer_release_token_account,
        initializer_receive_token_account,
        initializer_amount,
        taker_amount,
    )
}

/// Fulfills the open trade with a payment of `exchange_amount` of the
/// counter-asset, fully or in proportional part.
/// See [`instructions::exchange::handler`] for the full contract.
pub fn exchange(
    st: &mut Escrow,
    taker_release_token_account: &mut TokenAccount,
    taker_receive_token_account: &mut TokenAccount,
    initializer_receive_token_account: &mut TokenAccount,
    initializer: Pubkey,
    exchange_amount: u64,
) -> (r: Result<(), EscrowError>)
    requires
        old(st).wf(),
        old(taker_receive_token_account).amount + old(st).vault_amount <= u64::MAX,
        old(initializer_receive_token_account).amount + exchange_amount <= u64::MAX,
    ensures
        final(st).wf(),
        r is Ok <==> instructions::exchange::fulfill_accepted(
            *old(st),
            *old(taker_release_token_account),
            *old(initializer_receive_token_account),
            initializer,
            exchange_amount,
        ),
        final(taker_release_token_account).key == old(taker_release_token_account).key,
        final(taker_receive_token_account).key == old(taker_receive_token_account).key,
        final(initializer_receive_token_account).key == old(initializer_receive_token_account).key,
        r is Ok ==> match old(st).record {
            Some(rec) => {
                &&& final(taker_release_token_account).amount == old(
                    taker_release_token_account,
                ).amount - instructions::exchange::counter_payment(rec, exchange_amount)
                &&& final(initializer_receive_token_account).amount == old(
                    initializer_receive_token_account,
                ).amount + instructions::exchange::counter_payment(rec, exchange_amount)
                &&& final(taker_receive_token_account).amount == old(
                    taker_receive_token_account,
                ).amount + instructions::exchange::deposit_payment(rec, exchange_amount)
                &&& final(st).record == instructions::exchange::record_after_fulfill(
                    rec,
                    exchange_amount,
                )
                &&& final(st).vault_amount == rec.initializer_amount
                    - instructions::exchange::deposit_payment(rec, exchange_amount)
            },
            None => false,
        },
        r is Err ==> {
            &&& *final(st) == *old(st)
            &&& *final(taker_release_token_account) == *old(taker_release_token_account)
            &&& *final(taker_receive_token_account) == *old(taker_receive_token_account)
            &&& *final(initializer_receive_token_account) == *old(
                initializer_receive_token_account,
            )
            &&& r == Err::<(), EscrowError>(
                instructions::exchange::fulfill_error(
                    *old(st),
                    *old(taker_release_token_account),
                    *old(initializer_receive_token_account),
                    initializer,
                    exchange_amount,
                ),
            )
        },
{
    instructions::exchange::handler(
        st,
        taker_release_token_account,
        taker_receive_token_account,
        initializer_receive_token_account,
        initializer,
        exchange_amount,
    )
}

/// Cancels the open trade: the depositor reclaims the vault's whole
/// balance and the record closes.
/// See [`instructions::cancel::handler`] for the full contract.
pub fn cancel(
    st: &mut Escrow,
    initializer: Pubkey,
    initializer_release_token_account: &mut TokenAccount,
) -> (r: Result<(), EscrowError>)
    requires
        old(st).wf(),
        old(initializer_release_token_account).amount + old(st).vault_amount <= u64::MAX,
    ensures
        final(st).wf(),
        r is Ok <==> instructions::cancel::cancel_accepted(
            *old(st),
            initializer,
            *old(initializer_release_token_account),
        ),
        final(initializer_release_token_account).key == old(initializer_release_token_account).key,
        r is Ok ==> {
            &&& final(initializer_release_token_account).amount == old(
                initializer_release_token_account,
            ).amount + old(st).vault_amount
            &&& final(st).record is None
            &&& final(st).vault_amount == 0
        },
        r is Err ==> {
            &&& *final(st) == *old(st)
            &&& *final(initializer_release_token_account) == *old(
                initializer_release_token_account,
            )
            &&& r == Err::<(), EscrowError>(
                instructions::cancel::cancel_error(
                    *old(st),
                    initializer,
                    *old(initializer_release_token_account),
                ),
            )
        },
{
    instructions::cancel::handler(st, initializer, initializer_release_token_account)
}

} // verus!
