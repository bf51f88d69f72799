use klend_liquidator::error::FlashLoanError;
use klend_liquidator::instruction::FlashLoanInstruction;

fn initiate_payload(amount: u64) -> Vec<u8> {
    let mut payload = vec![0u8];
    payload.extend_from_slice(&amount.to_le_bytes());
    payload
}

#[test]
fn unpack_reads_little_endian_amount() {
    let payload = vec![0u8, 0x01, 0x02, 0x03, 0x04, 0x05, 0x06, 0x07, 0x08];
    assert_eq!(
        FlashLoanInstruction::unpack(&payload),
        Ok(FlashLoanInstruction::InitiateFlashLoan { amount: 0x0807060504030201 })
    );
}

#[test]
fn unpack_pack_round_trip() {
    for amount in [0u64, 1, 9, 50_000, 1_000_000, u64::MAX - 1, u64::MAX] {
        let packed = FlashLoanInstruction::InitiateFlashLoan { amount }.pack();
        assert_eq!(packed, initiate_payload(amount));
        assert_eq!(
            FlashLoanInstruction::unpack(&packed),
            Ok(FlashLoanInstruction::InitiateFlashLoan { amount })
        );
    }
}

#[test]
fn unpack_ignores_trailing_bytes() {
    let mut payload = initiate_payload(77);
    payload.extend_from_slice(&[0xAA, 0xBB, 0xCC]);
    assert_eq!(
        FlashLoanInstruction::unpack(&payload),
        Ok(FlashLoanInstruction::InitiateFlashLoan { amount: 77 })
    );
}

#[test]
fn unpack_rejects_empty_payload() {
    assert_eq!(
        FlashLoanInstruction::unpack(&[]),
        Err(FlashLoanError::InvalidInstruction)
    );
}

#[test]
fn unpack_rejects_truncated_amount() {
    // Tag plus only seven amount bytes: one short of a full amount.
    let payload = vec![0u8, 1, 2, 3, 4, 5, 6, 7];
    assert_eq!(
        FlashLoanInstruction::unpack(&payload),
        Err(FlashLoanError::InvalidInstruction)
    );
}

#[test]
fn unpack_rejects_unknown_tag() {
    for tag in [1u8, 2, 22, 23, 255] {
        let mut payload = vec![tag];
        payload.extend_from_slice(&5u64.to_le_bytes());
        assert_eq!(
            FlashLoanInstruction::unpack(&payload),
            Err(FlashLoanError::InvalidInstruction)
        );
    }
}

#[test]
fn error_codes_are_distinct_and_fixed() {
    assert_eq!(FlashLoanError::InvalidInstruction.error_code(), 1000);
    assert_eq!(FlashLoanError::InvalidAmount.error_code(), 1001);
    assert_eq!(FlashLoanError::InvalidSigner.error_code(), 1002);
}
