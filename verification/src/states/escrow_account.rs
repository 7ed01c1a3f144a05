//! The escrow record and the custodial state of one open trade.

use vstd::prelude::*;
use vstd::bytes::spec_u64_to_le_bytes;
use vstd::bytes::spec_u64_from_le_bytes;
use vstd::bytes::lemma_auto_spec_u64_to_from_le_bytes;
use vstd::bytes::u64_to_le_bytes;
use vstd::bytes::u64_from_le_bytes;
use vstd::slice::slice_index_get;
use vstd::slice::slice_subrange;

use crate::states::token_account::Pubkey;

verus! {

/// The size of the persisted record: an eight-byte type discriminator,
/// three 32-byte account addresses, and two eight-byte amounts.
pub const ESCROW_ACCOUNT_LEN: usize = 8 + 32 + 32 + 32 + 8 + 8;

/// The persisted record of one open trade.
///
/// The three addresses are bound at opening time and never change; the
/// two amounts are decremented by partial fulfillments and reach zero
/// together, up to the rounding of the proportional split.
#[derive(Clone, Copy)]
pub struct EscrowAccount {
    /// The depositor's authenticated identity.
    pub initializer_key: Pubkey,
    /// The depositor's account that funded the deposit, and that a cancel
    /// refunds.
    pub initializer_release_token_account: Pubkey,
    /// The depositor's account that receives the counter-asset.
    pub initializer_receive_token_account: Pubkey,
    /// The remaining quantity of the deposited asset, held by the vault.
    pub initializer_amount: u64,
    /// The remaining quantity of the counter-asset still owed to the
    /// depositor.
    pub taker_amount: u64,
}

/// The eight-byte discriminator that versions the persisted record.
pub open spec fn record_discriminator() -> Seq<u8> {
    seq![101u8, 115u8, 99u8, 114u8, 111u8, 119u8, 118u8, 49u8]
}

impl EscrowAccount {
    /// The persisted form of the record: the discriminator, the three
    /// bound addresses, and the two amounts in little-endian order.
    pub open spec fn spec_bytes(self) -> Seq<u8> {
        record_discriminator() + self.initializer_key@ + self.initializer_release_token_account@
            + self.initializer_receive_token_account@ + spec_u64_to_le_bytes(
            self.initializer_amount,
        ) + spec_u64_to_le_bytes(self.taker_amount)
    }

    /// Serializes the record into its fixed persisted layout.
    pub fn to_bytes(&self) -> (out: Vec<u8>)
        ensures
            out@ == self.spec_bytes(),
            out@.len() == ESCROW_ACCOUNT_LEN,
    {
        let mut out: Vec<u8> = Vec::new();
        out.push(101u8);
        out.push(115u8);
        out.push(99u8);
        out.push(114u8);
        out.push(111u8);
        out.push(119u8);
        out.push(118u8);
        out.push(49u8);
        proof {
            assert(out@ =~= record_discriminator());
        }
        push_key(&mut out, &self.initializer_key);
        push_key(&mut out, &self.initializer_release_token_account);
        push_key(&mut out, &self.initializer_receive_token_account);
        let mut amounts = u64_to_le_bytes(self.initializer_amount);
        out.append(&mut amounts);
        let mut amounts = u64_to_le_bytes(self.taker_amount);
        out.append(&mut amounts);
        proof {
            assert(out@ =~= self.spec_bytes());
        }
        out
    }

    /// Reads a record back from its persisted layout.
    ///
    /// Exactly the byte strings of the right length that begin with the
    /// discriminator decode, and a decoded record re-serializes to the
    /// very bytes it was read from.
    pub fn try_from_bytes(bytes: &[u8]) -> (r: Option<EscrowAccount>)
        ensures
            r is Some <==> bytes@.len() == ESCROW_ACCOUNT_LEN && bytes@.subrange(0, 8)
                == record_discriminator(),
            r matches Some(rec) ==> bytes@ == rec.spec_bytes(),
    {
        if bytes.len() != ESCROW_ACCOUNT_LEN {
            return None;
        }
        if !has_discriminator(bytes) {
            return None;
        }
        let initializer_key = read_key(bytes, 8);
        let initializer_release_token_account = read_key(bytes, 40);
        let initializer_receive_token_account = read_key(bytes, 72);
        let initializer_amount = u64_from_le_bytes(slice_subrange(bytes, 104, 112));
        let taker_amount = u64_from_le_bytes(slice_subrange(bytes, 112, 120));
        let rec = EscrowAccount {
            initializer_key,
            initializer_release_token_account,
            initializer_receive_token_account,
            initializer_amount,
            taker_amount,
        };
        proof {
            lemma_auto_spec_u64_to_from_le_bytes();
            assert(bytes@ =~= rec.spec_bytes());
        }
        Some(rec)
    }
}

/// The persisted layout identifies the record: two records with the
/// same serialized bytes are the same record. Together with the
/// contracts of [`EscrowAccount::to_bytes`] and
/// [`EscrowAccount::try_from_bytes`] this makes decoding the exact
/// inverse of serialization.
pub proof fn lemma_record_bytes_injective(r1: EscrowAccount, r2: EscrowAccount)
    requires
        r1.spec_bytes() == r2.spec_bytes(),
    ensures
        r1 == r2,
{
    broadcast use vstd::array::group_array_axioms;

    lemma_auto_spec_u64_to_from_le_bytes();
    let b = r1.spec_bytes();
    assert(r1.initializer_key@ =~= b.subrange(8, 40));
    assert(r2.initializer_key@ =~= b.subrange(8, 40));
    assert(r1.initializer_release_token_account@ =~= b.subrange(40, 72));
    assert(r2.initializer_release_token_account@ =~= b.subrange(40, 72));
    assert(r1.initializer_receive_token_account@ =~= b.subrange(72, 104));
    assert(r2.initializer_receive_token_account@ =~= b.subrange(72, 104));
    assert(spec_u64_to_le_bytes(r1.initializer_amount) =~= b.subrange(104, 112));
    assert(spec_u64_to_le_bytes(r2.initializer_amount) =~= b.subrange(104, 112));
    assert(spec_u64_to_le_bytes(r1.taker_amount) =~= b.subrange(112, 120));
    assert(spec_u64_to_le_bytes(r2.taker_amount) =~= b.subrange(112, 120));
    assert(r1.initializer_key =~= r2.initializer_key);
    assert(r1.initializer_release_token_account =~= r2.initializer_release_token_account);
    assert(r1.initializer_receive_token_account =~= r2.initializer_receive_token_account);
    assert(r1.initializer_amount == spec_u64_from_le_bytes(
        spec_u64_to_le_bytes(r1.initializer_amount),
    ));
    assert(r1.taker_amount == spec_u64_from_le_bytes(spec_u64_to_le_bytes(r1.taker_amount)));
}

/// Appends a 32-byte address to the buffer.
fn push_key(out: &mut Vec<u8>, key: &Pubkey)
    ensures
        final(out)@ == old(out)@ + key@,
{
    proof {
        assert(out@ =~= out@ + key@.subrange(0, 0));
    }
    let mut i: usize = 0;
    while i < 32
        invariant
            i <= 32,
            out@ == old(out)@ + key@.subrange(0, i as int),
        decreases 32 - i,
    {
        out.push(key[i]);
        proof {
            assert(out@ =~= old(out)@ + key@.subrange(0, i as int + 1));
        }
        i += 1;
    }
    proof {
        assert(key@.subrange(0, 32) =~= key@);
    }
}

/// Reads a 32-byte address at the given offset.
fn read_key(bytes: &[u8], off: usize) -> (key: Pubkey)
    requires
        off + 32 <= bytes@.len(),
        bytes@.len() <= usize::MAX,
    ensures
        key@ == bytes@.subrange(off as int, off as int + 32),
{
    let mut key: Pubkey = [0u8; 32];
    let mut i: usize = 0;
    while i < 32
        invariant
            i <= 32,
            off + 32 <= bytes@.len(),
            bytes@.len() <= usize::MAX,
            forall|j: int| 0 <= j < i ==> key@[j] == bytes@[off + j],
        decreases 32 - i,
    {
        key[i] = *slice_index_get(bytes, off + i);
        i += 1;
    }
    proof {
        assert(key@ =~= bytes@.subrange(off as int, off as int + 32));
    }
    key
}

/// Tests whether the buffer begins with the record discriminator.
fn has_discriminator(bytes: &[u8]) -> (r: bool)
    requires
        bytes@.len() >= 8,
    ensures
        r <==> bytes@.subrange(0, 8) == record_discriminator(),
{
    let r = *slice_index_get(bytes, 0) == 101u8 && *slice_index_get(bytes, 1) == 115u8
        && *slice_index_get(bytes, 2) == 99u8 && *slice_index_get(bytes, 3) == 114u8
        && *slice_index_get(bytes, 4) == 111u8 && *slice_index_get(bytes, 5) == 119u8
        && *slice_index_get(bytes, 6) == 118u8 && *slice_index_get(bytes, 7) == 49u8;
    proof {
        if r {
            assert(bytes@.subrange(0, 8) =~= record_discriminator());
        } else {
            assert(bytes@.subrange(0, 8) != record_discriminator());
        }
    }
    r
}

/// The protocol-controlled state of the trade: the record, if one is
/// open, and the balance the custodial vault holds.
///
/// Only the three operations mutate a value of this type; the vault is
/// controlled by the protocol's derived authority and no party can move
/// its balance directly.
pub struct Escrow {
    /// The open record, or `None` once the trade is settled, cancelled,
    /// or not yet opened.
    pub record: Option<EscrowAccount>,
    /// The balance the custodial vault holds.
    pub vault_amount: u64,
}

impl Escrow {
    /// The custody invariant: while a record is open the vault holds
    /// exactly the remaining deposit it describes, and the counter-asset
    /// side is not yet exhausted; once no record exists the vault is
    /// empty.
    pub open spec fn wf(self) -> bool {
        match self.record {
            Some(rec) => self.vault_amount == rec.initializer_amount && rec.taker_amount >= 1,
            None => self.vault_amount == 0,
        }
    }

    /// A fresh state with no open trade.
    pub fn new() -> (st: Escrow)
        ensures
            st.record is None,
            st.vault_amount == 0,
            st.wf(),
    {
        Escrow { record: None, vault_amount: 0 }
    }
}

} // verus!
