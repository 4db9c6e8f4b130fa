//! The escrow record codec: the fixed-width persisted state of one swap.

use vstd::prelude::*;
use vstd::slice::slice_to_vec;

use crate::bytes::{le_u64_bytes, le_u64_val, lemma_le_u64_round_trip, push_le_u64, read_le_u64};
use crate::error::ProcessError;

verus! {

/// The record's fixed wire width: flag (1) + three identities (32 each) +
/// little-endian amount (8).
pub const ESCROW_LEN: usize = 105;

/// The abstract value of an escrow record.
#[verifier::ext_equal]
pub struct EscrowView {
    /// Whether the slot is occupied by a live escrow.
    pub is_initialized: bool,
    /// Who may ultimately receive rent-back and token B.
    pub initializer_pubkey: Seq<u8>,
    /// The temporary token A account this escrow governs.
    pub temp_token_account_pubkey: Seq<u8>,
    /// The initializer's token B destination.
    pub initializer_token_to_receive_account_pubkey: Seq<u8>,
    /// The token B amount the initializer demands.
    pub expected_amount: u64,
}

impl EscrowView {
    /// Every identity is a 32-byte public key.
    pub open spec fn wf(self) -> bool {
        &&& self.initializer_pubkey.len() == 32
        &&& self.temp_token_account_pubkey.len() == 32
        &&& self.initializer_token_to_receive_account_pubkey.len() == 32
    }
}

/// One pending swap's terms and party identities, as persisted in the escrow
/// account.
#[derive(Clone, Debug, PartialEq, Eq)]
pub struct Escrow {
    /// Whether the slot is occupied by a live escrow.
    pub is_initialized: bool,
    /// Who may ultimately receive rent-back and token B.
    pub initializer_pubkey: Vec<u8>,
    /// The temporary token A account this escrow governs.
    pub temp_token_account_pubkey: Vec<u8>,
    /// The initializer's token B destination.
    pub initializer_token_to_receive_account_pubkey: Vec<u8>,
    /// The token B amount the initializer demands.
    pub expected_amount: u64,
}

impl View for Escrow {
    type V = EscrowView;

    open spec fn view(&self) -> EscrowView {
        EscrowView {
            is_initialized: self.is_initialized,
            initializer_pubkey: self.initializer_pubkey@,
            temp_token_account_pubkey: self.temp_token_account_pubkey@,
            initializer_token_to_receive_account_pubkey:
                self.initializer_token_to_receive_account_pubkey@,
            expected_amount: self.expected_amount,
        }
    }
}

/// The 105-byte wire form of a record: initialized flag, then the three
/// identities in order, then the little-endian amount; no padding.
pub open spec fn spec_pack_escrow(v: EscrowView) -> Seq<u8>
    recommends
        v.wf(),
{
    seq![if v.is_initialized { 1u8 } else { 0u8 }] + v.initializer_pubkey
        + v.temp_token_account_pubkey + v.initializer_token_to_receive_account_pubkey
        + le_u64_bytes(v.expected_amount)
}

/// The record a 105-byte buffer holds; any non-zero flag byte reads as
/// occupied, so an all-zero (never-initialized) buffer reads as a free slot.
pub open spec fn spec_unpack_escrow(s: Seq<u8>) -> EscrowView
    recommends
        s.len() == 105,
{
    EscrowView {
        is_initialized: s[0] != 0,
        initializer_pubkey: s.subrange(1, 33),
        temp_token_account_pubkey: s.subrange(33, 65),
        initializer_token_to_receive_account_pubkey: s.subrange(65, 97),
        expected_amount: le_u64_val(s.subrange(97, 105)) as u64,
    }
}

/// Round trip: decoding an encoded record recovers it exactly, for every
/// well-formed record value.
pub proof fn lemma_escrow_round_trip(v: EscrowView)
    requires
        v.wf(),
    ensures
        spec_pack_escrow(v).len() == 105,
        spec_unpack_escrow(spec_pack_escrow(v)) == v,
{
    let s = spec_pack_escrow(v);
    lemma_le_u64_round_trip(v.expected_amount);
    assert(s.subrange(1, 33) =~= v.initializer_pubkey);
    assert(s.subrange(33, 65) =~= v.temp_token_account_pubkey);
    assert(s.subrange(65, 97) =~= v.initializer_token_to_receive_account_pubkey);
    assert(s.subrange(97, 105) =~= le_u64_bytes(v.expected_amount));
    assert(spec_unpack_escrow(s) =~= v);
}

impl Escrow {
    /// Every identity is a 32-byte public key.
    pub open spec fn wf(&self) -> bool {
        self@.wf()
    }

    /// Serializes the record into its fixed 105-byte layout.
    pub fn pack(&self) -> (r: Vec<u8>)
        requires
            self.wf(),
        ensures
            r@ == spec_pack_escrow(self@),
            r@.len() == 105,
    {
        let mut out: Vec<u8> = Vec::new();
        out.push(if self.is_initialized { 1 } else { 0 });
        out.extend_from_slice(self.initializer_pubkey.as_slice());
        out.extend_from_slice(self.temp_token_account_pubkey.as_slice());
        out.extend_from_slice(self.initializer_token_to_receive_account_pubkey.as_slice());
        push_le_u64(&mut out, self.expected_amount);
        proof {
            assert(out@ =~= spec_pack_escrow(self@));
        }
        out
    }

    /// Decodes a buffer of exactly the fixed width, tolerating an
    /// uninitialized (all-zero) record; only the shape is validated.
    pub fn unpack_unchecked(src: &[u8]) -> (r: Result<Escrow, ProcessError>)
        ensures
            src@.len() == 105 ==> (r matches Ok(e) && e@ == spec_unpack_escrow(src@) && e.wf()),
            src@.len() != 105 ==> r == Err::<Escrow, ProcessError>(ProcessError::InvalidAccountData),
    {
        if src.len() != 105 {
            return Err(ProcessError::InvalidAccountData);
        }
        let is_initialized = src[0] != 0;
        let initializer_pubkey = slice_to_vec(&src[1..33]);
        let temp_token_account_pubkey = slice_to_vec(&src[33..65]);
        let initializer_token_to_receive_account_pubkey = slice_to_vec(&src[65..97]);
        let expected_amount = read_le_u64(src, 97);
        let e = Escrow {
            is_initialized,
            initializer_pubkey,
            temp_token_account_pubkey,
            initializer_token_to_receive_account_pubkey,
            expected_amount,
        };
        proof {
            assert(e@ =~= spec_unpack_escrow(src@));
        }
        Ok(e)
    }

    /// Decodes a buffer and demands an occupied (initialized) record.
    pub fn unpack(src: &[u8]) -> (r: Result<Escrow, ProcessError>)
        ensures
            src@.len() == 105 && spec_unpack_escrow(src@).is_initialized ==> (r matches Ok(e)
                && e@ == spec_unpack_escrow(src@) && e.wf()),
            !(src@.len() == 105 && spec_unpack_escrow(src@).is_initialized) ==> r == Err::<
                Escrow,
                ProcessError,
            >(ProcessError::InvalidAccountData),
    {
        match Self::unpack_unchecked(src) {
            Ok(e) => {
                if e.is_initialized {
                    Ok(e)
                } else {
                    Err(ProcessError::InvalidAccountData)
                }
            },
            Err(e) => Err(e),
        }
    }
}

} // verus!
