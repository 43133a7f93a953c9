//! Tests of the instruction codec: the wire format, its rejection paths,
//! and the error-code mapping.

use spl_cpi_test::error::CpiError;
use spl_cpi_test::error::ProgramError;
use spl_cpi_test::instruction::invoked_transfer;
use spl_cpi_test::instruction::CpiInstruction;
use spl_cpi_test::account::Pubkey;
use spl_cpi_test::system_program;

fn key(fill: u8) -> Pubkey {
    Pubkey { bytes: [fill; 32] }
}

fn invalid_instruction() -> ProgramError {
    ProgramError::from(CpiError::InvalidInstruction)
}

#[test]
fn round_trip_small_amounts() {
    for amount in [0u64, 1, 2, 9, 255, 256, 65_535, 1_000_000] {
        let inst = CpiInstruction::InvokedTransfer { amount };
        let packed = inst.pack();
        assert_eq!(CpiInstruction::unpack(&packed), Ok(inst));
    }
}

#[test]
fn round_trip_large_amounts() {
    for amount in [u64::MAX, u64::MAX - 1, 1 << 32, (1 << 63) + 17] {
        let inst = CpiInstruction::InvokedTransfer { amount };
        let packed = inst.pack();
        assert_eq!(CpiInstruction::unpack(&packed), Ok(inst));
    }
}

#[test]
fn packed_form_is_nine_bytes() {
    for amount in [0u64, 1, u64::MAX] {
        let inst = CpiInstruction::InvokedTransfer { amount };
        assert_eq!(inst.pack().len(), 9);
    }
}

#[test]
fn pack_million_exact_bytes() {
    let inst = CpiInstruction::InvokedTransfer { amount: 1_000_000 };
    assert_eq!(inst.pack(), vec![0x00, 0x40, 0x42, 0x0F, 0x00, 0x00, 0x00, 0x00, 0x00]);
}

#[test]
fn pack_max_exact_bytes() {
    let inst = CpiInstruction::InvokedTransfer { amount: u64::MAX };
    assert_eq!(inst.pack(), vec![0x00, 0xFF, 0xFF, 0xFF, 0xFF, 0xFF, 0xFF, 0xFF, 0xFF]);
}

#[test]
fn unpack_empty_buffer_rejected() {
    assert_eq!(CpiInstruction::unpack(&[]), Err(invalid_instruction()));
}

#[test]
fn unpack_unknown_tag_rejected() {
    for tag in [0x01u8, 0x02, 0x7F, 0xFF] {
        let mut buffer = vec![tag];
        buffer.extend_from_slice(&[0; 8]);
        assert_eq!(CpiInstruction::unpack(&buffer), Err(invalid_instruction()));
    }
}

#[test]
fn unpack_truncated_payload_rejected() {
    for short_len in 0..8usize {
        let mut buffer = vec![0x00u8];
        buffer.extend_from_slice(&vec![0x55; short_len]);
        assert_eq!(CpiInstruction::unpack(&buffer), Err(invalid_instruction()));
    }
}

#[test]
fn unpack_tolerates_trailing_bytes() {
    // The tolerant-prefix policy: bytes beyond the fixed payload are ignored.
    let mut buffer = vec![0x00, 0x40, 0x42, 0x0F, 0x00, 0x00, 0x00, 0x00, 0x00];
    buffer.extend_from_slice(&[0xAA, 0xBB, 0xCC]);
    assert_eq!(
        CpiInstruction::unpack(&buffer),
        Ok(CpiInstruction::InvokedTransfer { amount: 1_000_000 })
    );
}

#[test]
fn unpack_reads_little_endian() {
    let buffer = [0x00u8, 0x01, 0x02, 0x00, 0x00, 0x00, 0x00, 0x00, 0x00];
    assert_eq!(
        CpiInstruction::unpack(&buffer),
        Ok(CpiInstruction::InvokedTransfer { amount: 0x0201 })
    );
}

#[test]
fn error_code_mapping_is_stable() {
    assert_eq!(CpiError::InvalidInstruction.code(), 0);
    assert_eq!(CpiError::from_code(0), Some(CpiError::InvalidInstruction));
    assert_eq!(CpiError::from_code(1), None);
    assert_eq!(CpiError::from_code(u32::MAX), None);
    assert_eq!(invalid_instruction(), ProgramError::Custom(0));
}

#[test]
fn error_text_names_the_condition() {
    assert_eq!(CpiError::InvalidInstruction.error_text(), "Invalid instruction");
    assert_eq!(CpiError::type_of(), "CpiError");
}

#[test]
fn invoked_transfer_builds_instruction() {
    let program = spl_cpi_test::id();
    let source = key(3);
    let destination = key(4);
    let inst = invoked_transfer(&program, &source, &destination, 1_000_000).unwrap();

    assert_eq!(inst.program_id, program);
    assert_eq!(inst.data, vec![0x00, 0x40, 0x42, 0x0F, 0x00, 0x00, 0x00, 0x00, 0x00]);

    assert_eq!(inst.accounts.len(), 3);
    assert_eq!(inst.accounts[0].pubkey, source);
    assert!(inst.accounts[0].is_signer);
    assert!(inst.accounts[0].is_writable);
    assert_eq!(inst.accounts[1].pubkey, destination);
    assert!(!inst.accounts[1].is_signer);
    assert!(inst.accounts[1].is_writable);
    assert_eq!(inst.accounts[2].pubkey, system_program::id());
    assert!(!inst.accounts[2].is_signer);
    assert!(!inst.accounts[2].is_writable);
}

#[test]
fn system_program_id_is_all_zero() {
    assert_eq!(system_program::id().bytes, [0u8; 32]);
}

#[test]
fn program_id_is_fixed() {
    let id = spl_cpi_test::id();
    assert_eq!(id, spl_cpi_test::id());
    assert_ne!(id, system_program::id());
    assert_eq!(id.bytes[0], 11);
    assert_eq!(id.bytes[31], 15);
}
