use transfer_batch::accounts::{native_program_id, token_program_id, AccountHandle};
use transfer_batch::codec::encode_instruction;
use transfer_batch::errors::ProcessError;
use transfer_batch::instructions::{
    InstructionType, NativeSolTransferData, Transfer, TransferInstructionData,
};
use transfer_batch::processor::{
    process_instruction, process_native_sol_transfers, process_token_transfers, TransferPrimitive,
};

fn account(key_byte: u8, is_signer: bool) -> AccountHandle {
    AccountHandle { key: [key_byte; 32], is_signer, is_writable: true }
}

fn program_account(key: [u8; 32]) -> AccountHandle {
    AccountHandle { key, is_signer: false, is_writable: false }
}

fn transfers(amounts: &[u64]) -> Vec<Transfer> {
    amounts.iter().map(|&amount| Transfer { amount }).collect()
}

#[test]
fn scenario_token_batch_succeeds() {
    let accounts = vec![
        account(0xAA, true),
        program_account(token_program_id()),
        account(1, false),
        account(2, false),
        account(3, false),
        account(4, false),
    ];
    let data = TransferInstructionData { transfers: transfers(&[100, 250]) };
    let plan = process_token_transfers(&accounts, data);
    assert_eq!(plan.failure, None);
    assert_eq!(plan.calls.len(), 2);

    let first = &plan.calls[0];
    assert_eq!(first.primitive, TransferPrimitive::Token);
    assert_eq!(first.amount, 100);
    assert_eq!(first.source, [1; 32]);
    assert_eq!(first.destination, [2; 32]);
    assert_eq!(first.authority, Some([0xAA; 32]));
    assert_eq!(first.source_index, 2);
    assert_eq!(first.destination_index, 3);
    assert_eq!(first.authority_index, Some(0));
    assert_eq!(first.program_index, 1);

    let second = &plan.calls[1];
    assert_eq!(second.amount, 250);
    assert_eq!(second.source, [3; 32]);
    assert_eq!(second.destination, [4; 32]);
    assert_eq!(second.source_index, 4);
    assert_eq!(second.destination_index, 5);
}

#[test]
fn scenario_native_wrong_program_identity() {
    let accounts = vec![program_account([9; 32]), account(1, true), account(2, false)];
    let data = NativeSolTransferData { transfers: transfers(&[50]) };
    let plan = process_native_sol_transfers(&accounts, data);
    assert_eq!(plan.failure, Some(ProcessError::InvalidProgramIdentity));
    assert!(plan.calls.is_empty());
}

#[test]
fn scenario_token_account_list_one_short() {
    let mut accounts = vec![account(0xAA, true), program_account(token_program_id())];
    for b in 1..=5u8 {
        accounts.push(account(b, false));
    }
    assert_eq!(accounts.len(), 7);
    let data = TransferInstructionData { transfers: transfers(&[1, 2, 3]) };
    let plan = process_token_transfers(&accounts, data);
    assert_eq!(plan.failure, Some(ProcessError::AccountCountMismatch));
    assert!(plan.calls.is_empty());
}

#[test]
fn scenario_native_second_source_unsigned() {
    let accounts = vec![
        program_account(native_program_id()),
        account(1, true),
        account(2, false),
        account(3, false),
        account(4, false),
    ];
    let data = NativeSolTransferData { transfers: transfers(&[11, 22]) };
    let plan = process_native_sol_transfers(&accounts, data);
    assert_eq!(plan.failure, Some(ProcessError::MissingSignature));
    assert_eq!(plan.calls.len(), 1);
    let first = &plan.calls[0];
    assert_eq!(first.primitive, TransferPrimitive::Native);
    assert_eq!(first.amount, 11);
    assert_eq!(first.source, [1; 32]);
    assert_eq!(first.destination, [2; 32]);
    assert_eq!(first.authority, None);
    assert_eq!(first.source_index, 1);
    assert_eq!(first.destination_index, 2);
    assert_eq!(first.authority_index, None);
    assert_eq!(first.program_index, 0);
}

#[test]
fn token_unsigned_authority_plans_nothing() {
    let accounts = vec![
        account(0xAA, false),
        program_account(token_program_id()),
        account(1, false),
        account(2, false),
    ];
    let data = TransferInstructionData { transfers: transfers(&[100]) };
    let plan = process_token_transfers(&accounts, data);
    assert_eq!(plan.failure, Some(ProcessError::MissingSignature));
    assert!(plan.calls.is_empty());
}

#[test]
fn token_wrong_program_identity() {
    let accounts = vec![account(0xAA, true), program_account([7; 32]), account(1, false), account(2, false)];
    let data = TransferInstructionData { transfers: transfers(&[100]) };
    let plan = process_token_transfers(&accounts, data);
    assert_eq!(plan.failure, Some(ProcessError::InvalidProgramIdentity));
    assert!(plan.calls.is_empty());
}

#[test]
fn native_account_list_too_long() {
    let accounts = vec![
        program_account(native_program_id()),
        account(1, true),
        account(2, false),
        account(3, true),
    ];
    let data = NativeSolTransferData { transfers: transfers(&[5]) };
    let plan = process_native_sol_transfers(&accounts, data);
    assert_eq!(plan.failure, Some(ProcessError::AccountCountMismatch));
    assert!(plan.calls.is_empty());
}

#[test]
fn token_empty_batch_succeeds() {
    let accounts = vec![account(0xAA, true), program_account(token_program_id())];
    let data = TransferInstructionData { transfers: Vec::new() };
    let plan = process_token_transfers(&accounts, data);
    assert_eq!(plan.failure, None);
    assert!(plan.calls.is_empty());
}

#[test]
fn native_empty_batch_succeeds() {
    let accounts = vec![program_account(native_program_id())];
    let data = NativeSolTransferData { transfers: Vec::new() };
    let plan = process_native_sol_transfers(&accounts, data);
    assert_eq!(plan.failure, None);
    assert!(plan.calls.is_empty());
}

#[test]
fn amounts_are_forwarded_unmodified() {
    let accounts = vec![
        program_account(native_program_id()),
        account(1, true),
        account(2, false),
    ];
    let data = NativeSolTransferData { transfers: transfers(&[u64::MAX]) };
    let plan = process_native_sol_transfers(&accounts, data);
    assert_eq!(plan.failure, None);
    assert_eq!(plan.calls[0].amount, u64::MAX);
}

#[test]
fn process_instruction_end_to_end_token() {
    let instruction = InstructionType::TokenTransfer(TransferInstructionData {
        transfers: transfers(&[100, 250]),
    });
    let data = encode_instruction(&instruction);
    let accounts = vec![
        account(0xAA, true),
        program_account(token_program_id()),
        account(1, false),
        account(2, false),
        account(3, false),
        account(4, false),
    ];
    let plan = process_instruction(&accounts, &data);
    assert_eq!(plan.failure, None);
    assert_eq!(plan.calls.len(), 2);
    assert_eq!(plan.calls[0].amount, 100);
    assert_eq!(plan.calls[1].amount, 250);
}

#[test]
fn process_instruction_end_to_end_native() {
    let instruction = InstructionType::NativeSolTransfer(NativeSolTransferData {
        transfers: transfers(&[7]),
    });
    let data = encode_instruction(&instruction);
    let accounts = vec![program_account(native_program_id()), account(1, true), account(2, false)];
    let plan = process_instruction(&accounts, &data);
    assert_eq!(plan.failure, None);
    assert_eq!(plan.calls.len(), 1);
    assert_eq!(plan.calls[0].primitive, TransferPrimitive::Native);
    assert_eq!(plan.calls[0].amount, 7);
}

#[test]
fn process_instruction_rejects_garbage() {
    let accounts = vec![account(1, true)];
    let plan = process_instruction(&accounts, &[0xFF, 0xFF, 0xFF]);
    assert_eq!(plan.failure, Some(ProcessError::DecodeError));
    assert!(plan.calls.is_empty());
}
