use vstd::prelude::*;
use vstd::bytes::{
    lemma_auto_spec_u64_to_from_le_bytes, spec_u64_from_le_bytes, spec_u64_to_le_bytes,
    u64_from_le_bytes, u64_to_le_bytes,
};
use vstd::slice::{slice_index_get, slice_subrange};

use crate::error::FlashLoanError;

verus! {

/// The tag byte that selects the only recognized operation of the
/// flash-loan entry point.
pub const INITIATE_FLASH_LOAN_TAG: u8 = 0;

/// The operations the flash-loan entry point recognizes, decoded from the
/// instruction payload.
#[derive(Clone, Copy, Debug, PartialEq, Eq, Structural)]
pub enum FlashLoanInstruction {
    InitiateFlashLoan { amount: u64 },
}

/// What decoding an instruction payload yields: the payload is well-formed
/// exactly when it starts with the initiate tag and carries at least eight
/// further bytes, which hold the amount in little-endian order. Bytes past
/// the ninth are ignored.
pub open spec fn spec_unpack(input: Seq<u8>) -> Result<FlashLoanInstruction, FlashLoanError> {
    if input.len() >= 9 && input[0] == INITIATE_FLASH_LOAN_TAG {
        Ok(
            FlashLoanInstruction::InitiateFlashLoan {
                amount: spec_u64_from_le_bytes(input.subrange(1, 9)),
            },
        )
    } else {
        Err(FlashLoanError::InvalidInstruction)
    }
}

/// The encoding of an instruction: the tag byte followed by the amount as
/// eight little-endian bytes.
pub open spec fn spec_pack(instruction: FlashLoanInstruction) -> Seq<u8> {
    match instruction {
        FlashLoanInstruction::InitiateFlashLoan { amount } => seq![
            INITIATE_FLASH_LOAN_TAG,
        ] + spec_u64_to_le_bytes(amount),
    }
}

impl FlashLoanInstruction {
    /// Decode an instruction payload. Fails with the invalid-instruction
    /// error on any payload that is not a recognized tag followed by a
    /// full little-endian amount.
    pub fn unpack(input: &[u8]) -> (r: Result<Self, FlashLoanError>)
        ensures
            r == spec_unpack(input@),
    {
        if input.len() >= 9 && *slice_index_get(input, 0) == INITIATE_FLASH_LOAN_TAG {
            let amount_bytes = slice_subrange(input, 1, 9);
            let amount = u64_from_le_bytes(amount_bytes);
            Ok(FlashLoanInstruction::InitiateFlashLoan { amount })
        } else {
            Err(FlashLoanError::InvalidInstruction)
        }
    }

    /// Encode an instruction as its payload bytes.
    pub fn pack(&self) -> (out: Vec<u8>)
        ensures
            out@ == spec_pack(*self),
    {
        match self {
            FlashLoanInstruction::InitiateFlashLoan { amount } => {
                let mut out: Vec<u8> = Vec::new();
                out.push(INITIATE_FLASH_LOAN_TAG);
                let mut amount_bytes = u64_to_le_bytes(*amount);
                out.append(&mut amount_bytes);
                proof {
                    assert(out@ =~= spec_pack(*self));
                }
                out
            },
        }
    }
}

/// Decoding is a right inverse of encoding: a payload packed from an
/// amount always decodes back to the same amount.
pub proof fn lemma_pack_unpack_round_trip(amount: u64)
    ensures
        spec_unpack(spec_pack(FlashLoanInstruction::InitiateFlashLoan { amount })) == Ok::<
            _,
            FlashLoanError,
        >(FlashLoanInstruction::InitiateFlashLoan { amount }),
{
    lemma_auto_spec_u64_to_from_le_bytes();
    let bytes = spec_pack(FlashLoanInstruction::InitiateFlashLoan { amount });
    assert(bytes.subrange(1, 9) =~= spec_u64_to_le_bytes(amount));
}

} // verus!
