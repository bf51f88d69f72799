use klend_liquidator::error::FlashLoanError;
use klend_liquidator::flash_loan::{
    check_flash_loan_request, create_flash_borrow_ix, create_flash_repay_ix, process_flash_loan,
    process_instruction, AccountSlot, FlashAccount, FLASH_BORROW_TAG, FLASH_REPAY_TAG,
};

fn expected_account_list() -> Vec<AccountSlot> {
    let writable = |account: FlashAccount| AccountSlot {
        account,
        is_signer: false,
        is_writable: true,
    };
    let read_only = |account: FlashAccount| AccountSlot {
        account,
        is_signer: false,
        is_writable: false,
    };
    vec![
        AccountSlot {
            account: FlashAccount::UserAuthority,
            is_signer: true,
            is_writable: true,
        },
        read_only(FlashAccount::LendingMarketAuthority),
        read_only(FlashAccount::LendingMarket),
        writable(FlashAccount::Reserve),
        read_only(FlashAccount::ReserveLiquidityMint),
        writable(FlashAccount::SourceLiquidity),
        writable(FlashAccount::UserTokenAccount),
        writable(FlashAccount::FeeReceiver),
        writable(FlashAccount::Referrer),
        read_only(FlashAccount::Referrer),
        read_only(FlashAccount::InstructionsSysvar),
        read_only(FlashAccount::TokenProgram),
    ]
}

#[test]
fn borrow_ix_payload_and_accounts() {
    let ix = create_flash_borrow_ix(1_000_000);
    let mut expected_data = vec![FLASH_BORROW_TAG];
    expected_data.extend_from_slice(&1_000_000u64.to_le_bytes());
    assert_eq!(ix.data, expected_data);
    assert_eq!(ix.accounts, expected_account_list());
}

#[test]
fn repay_ix_payload_and_accounts() {
    let ix = create_flash_repay_ix(1_000_000, 3);
    let mut expected_data = vec![FLASH_REPAY_TAG];
    expected_data.extend_from_slice(&1_000_000u64.to_le_bytes());
    expected_data.push(3);
    assert_eq!(ix.data, expected_data);
    assert_eq!(ix.accounts, expected_account_list());
}

#[test]
fn repay_trailing_byte_carries_borrow_position() {
    for position in [0u8, 1, 7, 128, 255] {
        let ix = create_flash_repay_ix(42, position);
        assert_eq!(ix.data.len(), 10);
        assert_eq!(ix.data[9], position);
    }
}

#[test]
fn validation_rejects_missing_signer_first() {
    assert_eq!(
        check_flash_loan_request(false, 5),
        Err(FlashLoanError::InvalidSigner)
    );
    // A missing signer outranks a zero amount.
    assert_eq!(
        check_flash_loan_request(false, 0),
        Err(FlashLoanError::InvalidSigner)
    );
    assert_eq!(
        check_flash_loan_request(true, 0),
        Err(FlashLoanError::InvalidAmount)
    );
    assert_eq!(check_flash_loan_request(true, 5), Ok(()));
}

#[test]
fn process_flash_loan_emits_matched_pair() {
    let (borrow_ix, repay_ix) = process_flash_loan(true, 42, 3).expect("valid request");
    assert_eq!(borrow_ix, create_flash_borrow_ix(42));
    assert_eq!(repay_ix, create_flash_repay_ix(42, 3));
    assert_eq!(repay_ix.data[9], 3);
}

#[test]
fn process_flash_loan_truncates_position_to_eight_bits() {
    let (_, repay_ix) = process_flash_loan(true, 1, 511).expect("valid request");
    assert_eq!(repay_ix.data[9], 255);
    let (_, repay_ix) = process_flash_loan(true, 1, 256).expect("valid request");
    assert_eq!(repay_ix.data[9], 0);
}

#[test]
fn process_flash_loan_rejects_bad_requests() {
    assert_eq!(
        process_flash_loan(false, 42, 0),
        Err(FlashLoanError::InvalidSigner)
    );
    assert_eq!(
        process_flash_loan(true, 0, 0),
        Err(FlashLoanError::InvalidAmount)
    );
}

#[test]
fn process_instruction_full_path() {
    let mut payload = vec![0u8];
    payload.extend_from_slice(&9_000u64.to_le_bytes());
    let (borrow_ix, repay_ix) = process_instruction(true, &payload, 7).expect("valid payload");
    assert_eq!(borrow_ix, create_flash_borrow_ix(9_000));
    assert_eq!(repay_ix, create_flash_repay_ix(9_000, 7));
}

#[test]
fn process_instruction_rejects_malformed_payloads() {
    // Too short and unknown tags never reach sub-call issuance.
    assert_eq!(
        process_instruction(true, &[], 0),
        Err(FlashLoanError::InvalidInstruction)
    );
    assert_eq!(
        process_instruction(true, &[0u8, 1, 2, 3], 0),
        Err(FlashLoanError::InvalidInstruction)
    );
    let mut payload = vec![9u8];
    payload.extend_from_slice(&9_000u64.to_le_bytes());
    assert_eq!(
        process_instruction(true, &payload, 0),
        Err(FlashLoanError::InvalidInstruction)
    );
}

#[test]
fn process_instruction_validates_after_decoding() {
    let mut payload = vec![0u8];
    payload.extend_from_slice(&0u64.to_le_bytes());
    // Well-formed payload, zero amount: the amount error, not the decode error.
    assert_eq!(
        process_instruction(true, &payload, 0),
        Err(FlashLoanError::InvalidAmount)
    );
    // Malformed payload outranks the missing signer.
    assert_eq!(
        process_instruction(false, &[1u8], 0),
        Err(FlashLoanError::InvalidInstruction)
    );
}
