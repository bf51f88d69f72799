use vstd::prelude::*;
use vstd::bytes::{lemma_auto_spec_u64_to_from_le_bytes, spec_u64_to_le_bytes, u64_to_le_bytes};

use crate::error::FlashLoanError;
use crate::instruction::{spec_unpack, FlashLoanInstruction};

verus! {

/// Discriminator byte of the lending protocol's flash-borrow sub-call.
pub const FLASH_BORROW_TAG: u8 = 23;

/// Discriminator byte of the lending protocol's flash-repay sub-call.
pub const FLASH_REPAY_TAG: u8 = 22;

/// The accounts the flash sub-calls name. The unverified shell maps each
/// role to its fixed on-ledger address (or, for the user's two accounts,
/// to the caller-supplied address); the framing here only fixes which
/// role stands in which slot.
#[derive(Clone, Copy, Debug, PartialEq, Eq, Structural)]
pub enum FlashAccount {
    UserAuthority,
    LendingMarketAuthority,
    LendingMarket,
    Reserve,
    ReserveLiquidityMint,
    SourceLiquidity,
    UserTokenAccount,
    FeeReceiver,
    Referrer,
    InstructionsSysvar,
    TokenProgram,
}

/// One slot of a sub-call's ordered account list: which account stands
/// there, whether it must have signed, and whether the callee may write
/// it.
#[derive(Clone, Copy, Debug, PartialEq, Eq, Structural)]
pub struct AccountSlot {
    pub account: FlashAccount,
    pub is_signer: bool,
    pub is_writable: bool,
}

/// A framed sub-call into the lending protocol: the ordered account list
/// and the binary payload. The unverified shell resolves the roles to
/// addresses and hands the call to the host runtime.
#[derive(Clone, Debug, PartialEq, Eq)]
pub struct KlendInstruction {
    pub accounts: Vec<AccountSlot>,
    pub data: Vec<u8>,
}

/// The fixed ordered 12-entry account list that both the borrow and the
/// repay sub-call require. Order is significant; the referrer appears
/// twice, once writable and once read-only.
pub open spec fn spec_flash_account_list() -> Seq<AccountSlot> {
    seq![
        AccountSlot { account: FlashAccount::UserAuthority, is_signer: true, is_writable: true },
        AccountSlot {
            account: FlashAccount::LendingMarketAuthority,
            is_signer: false,
            is_writable: false,
        },
        AccountSlot { account: FlashAccount::LendingMarket, is_signer: false, is_writable: false },
        AccountSlot { account: FlashAccount::Reserve, is_signer: false, is_writable: true },
        AccountSlot {
            account: FlashAccount::ReserveLiquidityMint,
            is_signer: false,
            is_writable: false,
        },
        AccountSlot { account: FlashAccount::SourceLiquidity, is_signer: false, is_writable: true },
        AccountSlot { account: FlashAccount::UserTokenAccount, is_signer: false, is_writable: true },
        AccountSlot { account: FlashAccount::FeeReceiver, is_signer: false, is_writable: true },
        AccountSlot { account: FlashAccount::Referrer, is_signer: false, is_writable: true },
        AccountSlot { account: FlashAccount::Referrer, is_signer: false, is_writable: false },
        AccountSlot {
            account: FlashAccount::InstructionsSysvar,
            is_signer: false,
            is_writable: false,
        },
        AccountSlot { account: FlashAccount::TokenProgram, is_signer: false, is_writable: false },
    ]
}

/// The borrow sub-call's payload: the flash-borrow discriminator followed
/// by the amount as eight little-endian bytes.
pub open spec fn spec_borrow_ix_data(amount: u64) -> Seq<u8> {
    seq![FLASH_BORROW_TAG] + spec_u64_to_le_bytes(amount)
}

/// The repay sub-call's payload: the flash-repay discriminator, the
/// amount as eight little-endian bytes, and one trailing byte carrying
/// the unit-relative position of the paired borrow.
pub open spec fn spec_repay_ix_data(amount: u64, borrow_instruction_index: u8) -> Seq<u8> {
    seq![FLASH_REPAY_TAG] + spec_u64_to_le_bytes(amount) + seq![borrow_instruction_index]
}

fn flash_account_list() -> (v: Vec<AccountSlot>)
    ensures
        v@ == spec_flash_account_list(),
{
    let mut v: Vec<AccountSlot> = Vec::new();
    v.push(AccountSlot { account: FlashAccount::UserAuthority, is_signer: true, is_writable: true });
    v.push(
        AccountSlot {
            account: FlashAccount::LendingMarketAuthority,
            is_signer: false,
            is_writable: false,
        },
    );
    v.push(AccountSlot { account: FlashAccount::LendingMarket, is_signer: false, is_writable: false });
    v.push(AccountSlot { account: FlashAccount::Reserve, is_signer: false, is_writable: true });
    v.push(
        AccountSlot {
            account: FlashAccount::ReserveLiquidityMint,
            is_signer: false,
            is_writable: false,
        },
    );
    v.push(AccountSlot { account: FlashAccount::SourceLiquidity, is_signer: false, is_writable: true });
    v.push(AccountSlot { account: FlashAccount::UserTokenAccount, is_signer: false, is_writable: true });
    v.push(AccountSlot { account: FlashAccount::FeeReceiver, is_signer: false, is_writable: true });
    v.push(AccountSlot { account: FlashAccount::Referrer, is_signer: false, is_writable: true });
    v.push(AccountSlot { account: FlashAccount::Referrer, is_signer: false, is_writable: false });
    v.push(
        AccountSlot {
            account: FlashAccount::InstructionsSysvar,
            is_signer: false,
            is_writable: false,
        },
    );
    v.push(AccountSlot { account: FlashAccount::TokenProgram, is_signer: false, is_writable: false });
    proof {
        assert(v@ =~= spec_flash_account_list());
    }
    v
}

/// Frame the flash-borrow sub-call for `amount`.
pub fn create_flash_borrow_ix(amount: u64) -> (ix: KlendInstruction)
    ensures
        ix.accounts@ == spec_flash_account_list(),
        ix.data@ == spec_borrow_ix_data(amount),
{
    let accounts = flash_account_list();
    let mut data: Vec<u8> = Vec::new();
    data.push(FLASH_BORROW_TAG);
    let mut amount_bytes = u64_to_le_bytes(amount);
    data.append(&mut amount_bytes);
    proof {
        assert(data@ =~= spec_borrow_ix_data(amount));
    }
    KlendInstruction { accounts, data }
}

/// Frame the flash-repay sub-call for `amount`, back-referencing the
/// paired borrow at `borrow_instruction_index` within the same atomic
/// unit.
pub fn create_flash_repay_ix(amount: u64, borrow_instruction_index: u8) -> (ix: KlendInstruction)
    ensures
        ix.accounts@ == spec_flash_account_list(),
        ix.data@ == spec_repay_ix_data(amount, borrow_instruction_index),
{
    let accounts = flash_account_list();
    let mut data: Vec<u8> = Vec::new();
    data.push(FLASH_REPAY_TAG);
    let mut amount_bytes = u64_to_le_bytes(amount);
    data.append(&mut amount_bytes);
    data.push(borrow_instruction_index);
    proof {
        assert(data@ =~= spec_repay_ix_data(amount, borrow_instruction_index));
    }
    KlendInstruction { accounts, data }
}

/// Validate a flash-loan request: the designated authority must have
/// proven signing authority in this execution, and the amount must be
/// non-zero — checked in that order, each violation with its own error.
pub fn check_flash_loan_request(user_authority_is_signer: bool, amount: u64) -> (r: Result<
    (),
    FlashLoanError,
>)
    ensures
        !user_authority_is_signer ==> r == Err::<(), _>(FlashLoanError::InvalidSigner),
        user_authority_is_signer && amount == 0 ==> r == Err::<(), _>(FlashLoanError::InvalidAmount),
        user_authority_is_signer && amount > 0 ==> r == Ok::<_, FlashLoanError>(()),
{
    if !user_authority_is_signer {
        return Err(FlashLoanError::InvalidSigner);
    }
    if amount == 0 {
        return Err(FlashLoanError::InvalidAmount);
    }
    Ok(())
}

/// The flash-loan primitive: after validation, frame a borrow sub-call
/// and, immediately after it, the matching repay sub-call whose trailing
/// byte carries the current instruction's unit-relative position,
/// truncated to 8 bits. The pair is returned in issue order; the shell
/// invokes both inside the same atomic unit, so a failure of either
/// reverts the borrow itself.
pub fn process_flash_loan(
    user_authority_is_signer: bool,
    amount: u64,
    current_ix_index: u16,
) -> (r: Result<(KlendInstruction, KlendInstruction), FlashLoanError>)
    ensures
        !user_authority_is_signer ==> r == Err::<(KlendInstruction, KlendInstruction), _>(
            FlashLoanError::InvalidSigner,
        ),
        user_authority_is_signer && amount == 0 ==> r == Err::<
            (KlendInstruction, KlendInstruction),
            _,
        >(FlashLoanError::InvalidAmount),
        user_authority_is_signer && amount > 0 ==> (r matches Ok(pair) && {
            &&& pair.0.accounts@ == spec_flash_account_list()
            &&& pair.0.data@ == spec_borrow_ix_data(amount)
            &&& pair.1.accounts@ == spec_flash_account_list()
            &&& pair.1.data@ == spec_repay_ix_data(amount, current_ix_index as u8)
        }),
{
    match check_flash_loan_request(user_authority_is_signer, amount) {
        Ok(_) => {},
        Err(e) => {
            return Err(e);
        },
    }
    let borrow_ix = create_flash_borrow_ix(amount);
    let repay_ix = create_flash_repay_ix(amount, current_ix_index as u8);
    Ok((borrow_ix, repay_ix))
}

/// The entry-point decision: decode the instruction payload, then run the
/// primitive. A malformed payload fails with the invalid-instruction
/// error, and a failed run returns no sub-calls, so nothing reaches
/// issuance.
pub fn process_instruction(
    user_authority_is_signer: bool,
    instruction_data: &[u8],
    current_ix_index: u16,
) -> (r: Result<(KlendInstruction, KlendInstruction), FlashLoanError>)
    ensures
        spec_unpack(instruction_data@) matches Err(e) ==> r == Err::<
            (KlendInstruction, KlendInstruction),
            _,
        >(e),
        spec_unpack(instruction_data@) matches Ok(
            FlashLoanInstruction::InitiateFlashLoan { amount },
        ) ==> {
            &&& !user_authority_is_signer ==> r == Err::<(KlendInstruction, KlendInstruction), _>(
                FlashLoanError::InvalidSigner,
            )
            &&& user_authority_is_signer && amount == 0 ==> r == Err::<
                (KlendInstruction, KlendInstruction),
                _,
            >(FlashLoanError::InvalidAmount)
            &&& user_authority_is_signer && amount > 0 ==> (r matches Ok(pair) && {
                &&& pair.0.accounts@ == spec_flash_account_list()
                &&& pair.0.data@ == spec_borrow_ix_data(amount)
                &&& pair.1.accounts@ == spec_flash_account_list()
                &&& pair.1.data@ == spec_repay_ix_data(amount, current_ix_index as u8)
            })
        },
{
    let instruction = match FlashLoanInstruction::unpack(instruction_data) {
        Ok(instruction) => instruction,
        Err(e) => {
            return Err(e);
        },
    };
    match instruction {
        FlashLoanInstruction::InitiateFlashLoan { amount } => process_flash_loan(
            user_authority_is_signer,
            amount,
            current_ix_index,
        ),
    }
}

/// Law: the repay payload's trailing byte carries the unit-relative
/// position of the paired borrow exactly, for every position
/// representable in 8 bits.
pub proof fn lemma_repay_back_reference(amount: u64, position: u16)
    requires
        position < 256,
    ensures
        spec_repay_ix_data(amount, position as u8).len() == 10,
        spec_repay_ix_data(amount, position as u8)[9] == position as u8,
        (position as u8) as u16 == position,
{
    lemma_auto_spec_u64_to_from_le_bytes();
    assert(spec_u64_to_le_bytes(amount).len() == 8);
}

} // verus!
