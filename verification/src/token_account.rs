//! Reading the custody account's balance out of the token-custody program's
//! own account layout, and that program's published identity.

use vstd::prelude::*;
use vstd::slice::slice_to_vec;

use crate::bytes::le_u64_val;

verus! {

/// Whether the 4 bytes at `at` are a well-formed optional-field tag in the
/// token-custody account layout: 0 or 1 followed by three zero bytes.
pub open spec fn spec_coption_tag_ok(s: Seq<u8>, at: int) -> bool
    recommends
        0 <= at && at + 4 <= s.len(),
{
    &&& (s[at] == 0 || s[at] == 1)
    &&& s[at + 1] == 0
    &&& s[at + 2] == 0
    &&& s[at + 3] == 0
}

/// Whether `s` is a token account buffer the token-custody program accepts as
/// initialized: exactly 165 bytes; well-formed optional-field tags for the
/// delegate (at 72), native marker (at 109) and close authority (at 129); and
/// a state byte (at 108) marking Initialized (1) or Frozen (2).
pub open spec fn spec_valid_token_account(s: Seq<u8>) -> bool {
    &&& s.len() == 165
    &&& spec_coption_tag_ok(s, 72)
    &&& (s[108] == 1 || s[108] == 2)
    &&& spec_coption_tag_ok(s, 109)
    &&& spec_coption_tag_ok(s, 129)
}

/// The balance a token account buffer records: the little-endian u64 at
/// bytes 64..72.
pub open spec fn spec_token_account_amount(s: Seq<u8>) -> int {
    le_u64_val(s.subrange(64, 72))
}

/// Relies on spl_token::state::Account::unpack (through the solana Pack
/// trait): it accepts exactly the buffers [`spec_valid_token_account`]
/// describes, and the `amount` field it returns is the little-endian u64 at
/// bytes 64..72 of the buffer.
#[verifier::external_body]
pub fn unpack_token_account_amount(data: &[u8]) -> (r: Option<u64>)
    ensures
        r is Some <==> spec_valid_token_account(data@),
        r matches Some(amount) ==> amount == spec_token_account_amount(data@),
{
    match <spl_token::state::Account as solana_program::program_pack::Pack>::unpack(data) {
        Ok(acc) => Some(acc.amount),
        Err(_) => None,
    }
}

/// The token-custody program's published identity.
pub open spec fn spec_spl_token_id() -> Seq<u8> {
    seq![
        6u8, 221u8, 246u8, 225u8, 215u8, 101u8, 161u8, 147u8, 217u8, 203u8, 225u8, 70u8, 206u8,
        235u8, 121u8, 172u8, 28u8, 180u8, 133u8, 237u8, 95u8, 91u8, 55u8, 145u8, 58u8, 140u8,
        245u8, 133u8, 126u8, 255u8, 0u8, 169u8,
    ]
}

/// The identity of the token-custody program that must own every token
/// account this escrow touches. A test holds these bytes to the identity the
/// token-custody crate publishes.
pub fn spl_token_program_id() -> (r: Vec<u8>)
    ensures
        r@ == spec_spl_token_id(),
        r@.len() == 32,
{
    let arr: [u8; 32] = [
        6u8, 221u8, 246u8, 225u8, 215u8, 101u8, 161u8, 147u8, 217u8, 203u8, 225u8, 70u8, 206u8,
        235u8, 121u8, 172u8, 28u8, 180u8, 133u8, 237u8, 95u8, 91u8, 55u8, 145u8, 58u8, 140u8,
        245u8, 133u8, 126u8, 255u8, 0u8, 169u8,
    ];
    let r = slice_to_vec(arr.as_slice());
    proof {
        assert(r@ =~= spec_spl_token_id());
    }
    r
}

} // verus!
