//! The instruction codec: raw bytes in, one of two typed commands out.

use vstd::prelude::*;

use crate::bytes::{le_u64_val, read_le_u64};
use crate::error::EscrowError;

verus! {

/// A command decoded from raw instruction bytes: byte 0 is the tag, bytes
/// 1..9 the little-endian unsigned 64-bit amount operand; trailing bytes are
/// ignored.
#[derive(Clone, Copy, Debug, PartialEq, Eq, Structural)]
pub enum EscrowInstruction {
    /// Starts the trade: populate the escrow record with the trade's terms
    /// and hand the custody account to the derived authority.
    ///
    /// Accounts expected, in order: the initializer (signer); the custody
    /// (temporary token A) account (writable); the initializer's token B
    /// receiving account; the escrow account (writable); the rent sysvar;
    /// the token-custody program.
    InitEscrow {
        /// The token B amount the initializer expects to receive.
        amount: u64,
    },
    /// Completes the trade atomically.
    ///
    /// Accounts expected, in order: the taker (signer); the taker's sending
    /// token B account (writable); the taker's receiving token A account
    /// (writable); the custody account (writable); the initializer's main
    /// account (writable); the initializer's token B receiving account
    /// (writable); the escrow account (writable); the token-custody program;
    /// the derived-authority account.
    Exchange {
        /// The custody balance the taker expects to be traded for their
        /// payment.
        amount: u64,
    },
}

impl EscrowInstruction {
    /// The decode of `input`: a non-empty buffer whose tag is 0 or 1 and
    /// whose operand holds at least 8 bytes decodes to a command; everything
    /// else is rejected.
    pub open spec fn spec_unpack(input: Seq<u8>) -> Result<EscrowInstruction, EscrowError> {
        if input.len() >= 9 && input[0] == 0 {
            Ok(EscrowInstruction::InitEscrow { amount: le_u64_val(input.subrange(1, 9)) as u64 })
        } else if input.len() >= 9 && input[0] == 1 {
            Ok(EscrowInstruction::Exchange { amount: le_u64_val(input.subrange(1, 9)) as u64 })
        } else {
            Err(EscrowError::InvalidInstruction)
        }
    }

    /// Decodes a byte buffer into an [`EscrowInstruction`].
    pub fn unpack(input: &[u8]) -> (r: Result<EscrowInstruction, EscrowError>)
        ensures
            r == Self::spec_unpack(input@),
    {
        if input.len() == 0 {
            return Err(EscrowError::InvalidInstruction);
        }
        let tag = input[0];
        let rest = &input[1..input.len()];
        if tag == 0 {
            match Self::unpack_amount(rest) {
                Ok(amount) => {
                    proof {
                        assert(rest@.subrange(0, 8) =~= input@.subrange(1, 9));
                    }
                    Ok(EscrowInstruction::InitEscrow { amount })
                },
                Err(e) => Err(e),
            }
        } else if tag == 1 {
            match Self::unpack_amount(rest) {
                Ok(amount) => {
                    proof {
                        assert(rest@.subrange(0, 8) =~= input@.subrange(1, 9));
                    }
                    Ok(EscrowInstruction::Exchange { amount })
                },
                Err(e) => Err(e),
            }
        } else {
            Err(EscrowError::InvalidInstruction)
        }
    }

    /// Decodes the first 8 bytes of an operand as the little-endian amount;
    /// a shorter operand is rejected, trailing bytes are ignored.
    pub fn unpack_amount(input: &[u8]) -> (r: Result<u64, EscrowError>)
        ensures
            input@.len() >= 8 ==> r == Ok::<u64, EscrowError>(
                le_u64_val(input@.subrange(0, 8)) as u64,
            ),
            input@.len() < 8 ==> r == Err::<u64, EscrowError>(EscrowError::InvalidInstruction),
    {
        if input.len() < 8 {
            return Err(EscrowError::InvalidInstruction);
        }
        Ok(read_le_u64(input, 0))
    }
}

} // verus!
