use vstd::prelude::*;

use crate::accounts::{
    keys_equal, native_program_id, native_program_id_bytes, token_program_id,
    token_program_id_bytes, AccountHandle,
};
use crate::codec::{decode_instruction, decoded_amounts, valid_encoding};
use crate::errors::ProcessError;
use crate::instructions::{
    amounts_of, InstructionType, NativeSolTransferData, TransferInstructionData,
};

verus! {

/// Which downstream primitive a planned invocation addresses.
#[derive(Clone, Copy, Debug, PartialEq, Eq, Structural)]
pub enum TransferPrimitive {
    Token,
    Native,
}

/// One planned downstream invocation: the primitive, the bound identity
/// keys, and the amount, together with the positions in the account list
/// from which each account capability must be taken.
#[derive(Clone, Copy, Debug, PartialEq, Eq)]
pub struct DownstreamInstruction {
    pub primitive: TransferPrimitive,
    pub source: [u8; 32],
    pub destination: [u8; 32],
    pub authority: Option<[u8; 32]>,
    pub amount: u64,
    pub source_index: usize,
    pub destination_index: usize,
    pub authority_index: Option<usize>,
    pub program_index: usize,
}

/// The outcome of decoding and validating one instruction: the ordered
/// downstream invocations that must be performed, and, if validation stopped
/// the batch, the failure to report once those invocations have run.
///
/// A driver performs `calls` strictly in order, aborting on the first
/// downstream rejection; if all of them succeed it reports `failure` when one
/// is present, and success otherwise. Validation failures found before the
/// loop leave `calls` empty, so nothing is invoked on such inputs.
#[derive(Clone, Debug, PartialEq, Eq)]
pub struct TransferPlan {
    pub calls: Vec<DownstreamInstruction>,
    pub failure: Option<ProcessError>,
}

/// The account-list length the token path requires for `n` transfers:
/// authority, token-program identity, then a (source, destination) pair per
/// transfer.
pub open spec fn token_expected_accounts(n: int) -> int {
    2 * n + 2
}

/// The account-list length the native path requires for `n` transfers: the
/// program identity, then a (source, destination) pair per transfer.
pub open spec fn native_expected_accounts(n: int) -> int {
    2 * n + 1
}

/// The position of transfer `i`'s source account on the token path.
pub open spec fn token_source_position(i: int) -> int {
    2 + 2 * i
}

/// The position of transfer `i`'s destination account on the token path.
pub open spec fn token_destination_position(i: int) -> int {
    3 + 2 * i
}

/// The position of transfer `i`'s source account on the native path.
pub open spec fn native_source_position(i: int) -> int {
    1 + 2 * i
}

/// The position of transfer `i`'s destination account on the native path.
pub open spec fn native_destination_position(i: int) -> int {
    2 + 2 * i
}

/// Whether `c` is exactly the downstream invocation the token path owes for
/// transfer `i`: the positionally bound source and destination, the shared
/// authority, and the unmodified amount.
pub open spec fn token_call_ok(
    c: DownstreamInstruction,
    accounts: Seq<AccountHandle>,
    amounts: Seq<u64>,
    i: int,
) -> bool {
    &&& c.primitive == TransferPrimitive::Token
    &&& c.source == accounts[token_source_position(i)].key
    &&& c.destination == accounts[token_destination_position(i)].key
    &&& c.authority == Some(accounts[0].key)
    &&& c.amount == amounts[i]
    &&& c.source_index == token_source_position(i)
    &&& c.destination_index == token_destination_position(i)
    &&& c.authority_index == Some(0usize)
    &&& c.program_index == 1
}

/// Whether `c` is exactly the downstream invocation the native path owes for
/// transfer `i`: the positionally bound source and destination, no separate
/// authority, and the unmodified amount.
pub open spec fn native_call_ok(
    c: DownstreamInstruction,
    accounts: Seq<AccountHandle>,
    amounts: Seq<u64>,
    i: int,
) -> bool {
    &&& c.primitive == TransferPrimitive::Native
    &&& c.source == accounts[native_source_position(i)].key
    &&& c.destination == accounts[native_destination_position(i)].key
    &&& c.authority is None
    &&& c.amount == amounts[i]
    &&& c.source_index == native_source_position(i)
    &&& c.destination_index == native_destination_position(i)
    &&& c.authority_index is None
    &&& c.program_index == 0
}

/// The full contract of the token path: the checks in their order — exact
/// account count, token-program identity, one shared signing authority — and
/// on success one planned invocation per transfer, in batch order.
pub open spec fn token_plan_ok(
    r: TransferPlan,
    accounts: Seq<AccountHandle>,
    amounts: Seq<u64>,
) -> bool {
    let n = amounts.len() as int;
    if accounts.len() != token_expected_accounts(n) {
        r.failure == Some(ProcessError::AccountCountMismatch) && r.calls@.len() == 0
    } else if accounts[1].key@ != token_program_id_bytes() {
        r.failure == Some(ProcessError::InvalidProgramIdentity) && r.calls@.len() == 0
    } else if !accounts[0].is_signer {
        r.failure == Some(ProcessError::MissingSignature) && r.calls@.len() == 0
    } else {
        &&& r.failure is None
        &&& r.calls@.len() == n
        &&& forall|i: int|
            0 <= i < n ==> token_call_ok(#[trigger] r.calls@[i], accounts, amounts, i)
    }
}

/// The full contract of the native path: exact account count, then the
/// native program identity, then per-transfer source signatures checked in
/// batch order inside the loop. The plan's length is the number of leading
/// transfers whose source did sign: everything before the first unsigned
/// source is still invoked, and the batch then fails.
pub open spec fn native_plan_ok(
    r: TransferPlan,
    accounts: Seq<AccountHandle>,
    amounts: Seq<u64>,
) -> bool {
    let n = amounts.len() as int;
    if accounts.len() != native_expected_accounts(n) {
        r.failure == Some(ProcessError::AccountCountMismatch) && r.calls@.len() == 0
    } else if accounts[0].key@ != native_program_id_bytes() {
        r.failure == Some(ProcessError::InvalidProgramIdentity) && r.calls@.len() == 0
    } else {
        let k = r.calls@.len() as int;
        &&& k <= n
        &&& forall|i: int|
            0 <= i < k ==> native_call_ok(#[trigger] r.calls@[i], accounts, amounts, i)
        &&& forall|i: int|
            0 <= i < k ==> (#[trigger] accounts[native_source_position(i)]).is_signer
        &&& (k < n ==> r.failure == Some(ProcessError::MissingSignature) && !accounts[
            native_source_position(k)].is_signer)
        &&& (k == n ==> r.failure is None)
    }
}

/// An empty plan that only reports `failure`.
fn failed_plan(failure: ProcessError) -> (r: TransferPlan)
    ensures
        r.failure == Some(failure),
        r.calls@.len() == 0,
{
    TransferPlan { calls: Vec::new(), failure: Some(failure) }
}

/// The token-transfer path: binds the account list as
/// `[authority, token-program, (source, destination)*]`, validates the
/// program identity and the shared authority's signature once, and plans one
/// token transfer per request.
pub fn process_token_transfers(
    accounts: &[AccountHandle],
    transfer_instruction_data: TransferInstructionData,
) -> (r: TransferPlan)
    ensures
        token_plan_ok(r, accounts@, amounts_of(transfer_instruction_data.transfers@)),
{
    let ghost amounts = amounts_of(transfer_instruction_data.transfers@);
    let num_transfers = transfer_instruction_data.transfers.len();
    let len = accounts.len();
    if len < 2 || (len - 2) % 2 != 0 || (len - 2) / 2 != num_transfers {
        proof {
            if len >= 2 {
                assert(len - 2 == 2 * ((len - 2) / 2) + (len - 2) % 2);
            }
            assert(accounts@.len() != token_expected_accounts(num_transfers as int));
        }
        return failed_plan(ProcessError::AccountCountMismatch);
    }
    proof {
        assert(len - 2 == 2 * ((len - 2) / 2) + (len - 2) % 2);
        assert(accounts@.len() == token_expected_accounts(num_transfers as int));
    }
    let authority_account = &accounts[0];
    let token_program = &accounts[1];
    if !keys_equal(&token_program.key, &token_program_id()) {
        return failed_plan(ProcessError::InvalidProgramIdentity);
    }
    if !authority_account.is_signer {
        return failed_plan(ProcessError::MissingSignature);
    }
    let mut calls: Vec<DownstreamInstruction> = Vec::new();
    let mut i: usize = 0;
    while i < num_transfers
        invariant
            accounts@.len() == 2 * (num_transfers as int) + 2,
            2 * (num_transfers as int) + 2 <= usize::MAX,
            accounts@[1].key@ == token_program_id_bytes(),
            accounts@[0].is_signer,
            authority_account.key == accounts@[0].key,
            num_transfers == transfer_instruction_data.transfers@.len(),
            amounts == amounts_of(transfer_instruction_data.transfers@),
            i <= num_transfers,
            calls@.len() == i,
            forall|j: int| 0 <= j < i ==> token_call_ok(#[trigger] calls@[j], accounts@, amounts, j),
        decreases num_transfers - i,
    {
        let source_account = &accounts[2 + 2 * i];
        let destination_account = &accounts[3 + 2 * i];
        let call = DownstreamInstruction {
            primitive: TransferPrimitive::Token,
            source: source_account.key,
            destination: destination_account.key,
            authority: Some(authority_account.key),
            amount: transfer_instruction_data.transfers[i].amount,
            source_index: 2 + 2 * i,
            destination_index: 3 + 2 * i,
            authority_index: Some(0),
            program_index: 1,
        };
        calls.push(call);
        proof {
            assert(amounts[i as int] == transfer_instruction_data.transfers@[i as int].amount);
            assert(calls@[i as int] == call);
            assert(token_call_ok(call, accounts@, amounts, i as int));
        }
        i = i + 1;
    }
    TransferPlan { calls, failure: None }
}

/// The native-transfer path: binds the account list as
/// `[program, (source, destination)*]`, validates the program identity once,
/// and then checks each transfer's own source signature in batch order,
/// stopping the plan at the first unsigned source.
pub fn process_native_sol_transfers(
    accounts: &[AccountHandle],
    transfer_data: NativeSolTransferData,
) -> (r: TransferPlan)
    ensures
        native_plan_ok(r, accounts@, amounts_of(transfer_data.transfers@)),
{
    let ghost amounts = amounts_of(transfer_data.transfers@);
    let num_transfers = transfer_data.transfers.len();
    let len = accounts.len();
    if len < 1 || (len - 1) % 2 != 0 || (len - 1) / 2 != num_transfers {
        proof {
            if len >= 1 {
                assert(len - 1 == 2 * ((len - 1) / 2) + (len - 1) % 2);
            }
            assert(accounts@.len() != native_expected_accounts(num_transfers as int));
        }
        return failed_plan(ProcessError::AccountCountMismatch);
    }
    proof {
        assert(len - 1 == 2 * ((len - 1) / 2) + (len - 1) % 2);
        assert(accounts@.len() == native_expected_accounts(num_transfers as int));
    }
    let system_program_account = &accounts[0];
    if !keys_equal(&system_program_account.key, &native_program_id()) {
        return failed_plan(ProcessError::InvalidProgramIdentity);
    }
    let mut calls: Vec<DownstreamInstruction> = Vec::new();
    let mut i: usize = 0;
    while i < num_transfers
        invariant
            accounts@.len() == 2 * (num_transfers as int) + 1,
            2 * (num_transfers as int) + 1 <= usize::MAX,
            num_transfers == transfer_data.transfers@.len(),
            amounts == amounts_of(transfer_data.transfers@),
            accounts@[0].key@ == native_program_id_bytes(),
            i <= num_transfers,
            calls@.len() == i,
            forall|j: int|
                0 <= j < i ==> native_call_ok(#[trigger] calls@[j], accounts@, amounts, j),
            forall|j: int|
                0 <= j < i ==> (#[trigger] accounts@[native_source_position(j)]).is_signer,
        decreases num_transfers - i,
    {
        let source_account = &accounts[1 + 2 * i];
        let destination_account = &accounts[2 + 2 * i];
        if !source_account.is_signer {
            return TransferPlan { calls, failure: Some(ProcessError::MissingSignature) };
        }
        let call = DownstreamInstruction {
            primitive: TransferPrimitive::Native,
            source: source_account.key,
            destination: destination_account.key,
            authority: None,
            amount: transfer_data.transfers[i].amount,
            source_index: 1 + 2 * i,
            destination_index: 2 + 2 * i,
            authority_index: None,
            program_index: 0,
        };
        calls.push(call);
        proof {
            assert(amounts[i as int] == transfer_data.transfers@[i as int].amount);
            assert(calls@[i as int] == call);
            assert(native_call_ok(call, accounts@, amounts, i as int));
        }
        i = i + 1;
    }
    TransferPlan { calls, failure: None }
}

/// The single entry point: decodes the instruction, dispatches on its
/// variant, and returns the validated plan of downstream invocations.
///
/// Decoding happens exactly once, before any account is inspected; a
/// malformed payload yields an empty plan with `DecodeError`.
pub fn process_instruction(accounts: &[AccountHandle], instruction_data: &[u8]) -> (r:
    TransferPlan)
    ensures
        !valid_encoding(instruction_data@) ==> r.failure == Some(ProcessError::DecodeError)
            && r.calls@.len() == 0,
        valid_encoding(instruction_data@) && instruction_data@[0] == 0 ==> token_plan_ok(
            r,
            accounts@,
            decoded_amounts(instruction_data@),
        ),
        valid_encoding(instruction_data@) && instruction_data@[0] == 1 ==> native_plan_ok(
            r,
            accounts@,
            decoded_amounts(instruction_data@),
        ),
{
    match decode_instruction(instruction_data) {
        Err(_) => failed_plan(ProcessError::DecodeError),
        Ok(InstructionType::TokenTransfer(data)) => process_token_transfers(accounts, data),
        Ok(InstructionType::NativeSolTransfer(data)) => process_native_sol_transfers(
            accounts,
            data,
        ),
    }
}

/// Law: account binding is a pure function of the transfer count and the
/// transfer index. On a successful token plan, invocation `i` receives
/// exactly the `(source, destination, amount)` triple implied by its
/// position, with the shared authority bound at position 0.
pub proof fn lemma_token_binding_positional(
    r: TransferPlan,
    accounts: Seq<AccountHandle>,
    amounts: Seq<u64>,
    i: int,
)
    requires
        token_plan_ok(r, accounts, amounts),
        r.failure is None,
        0 <= i < amounts.len(),
    ensures
        r.calls@.len() == amounts.len(),
        r.calls@[i].source == accounts[token_source_position(i)].key,
        r.calls@[i].destination == accounts[token_destination_position(i)].key,
        r.calls@[i].authority == Some(accounts[0].key),
        r.calls@[i].amount == amounts[i],
{
    assert(accounts.len() == token_expected_accounts(amounts.len() as int));
}

/// Law: the same, for the native path: on any native plan, each planned
/// invocation `i` receives exactly the positionally implied triple.
pub proof fn lemma_native_binding_positional(
    r: TransferPlan,
    accounts: Seq<AccountHandle>,
    amounts: Seq<u64>,
    i: int,
)
    requires
        native_plan_ok(r, accounts, amounts),
        accounts.len() == native_expected_accounts(amounts.len() as int),
        accounts[0].key@ == native_program_id_bytes(),
        0 <= i < r.calls@.len(),
    ensures
        r.calls@[i].source == accounts[native_source_position(i)].key,
        r.calls@[i].destination == accounts[native_destination_position(i)].key,
        r.calls@[i].authority is None,
        r.calls@[i].amount == amounts[i],
{
}

/// Law: an account list whose length differs from the expected formula
/// result fails with `AccountCountMismatch` and plans no downstream
/// invocation at all, on either path.
pub proof fn lemma_count_mismatch_plans_nothing(
    token: TransferPlan,
    native: TransferPlan,
    accounts: Seq<AccountHandle>,
    amounts: Seq<u64>,
)
    requires
        token_plan_ok(token, accounts, amounts),
        native_plan_ok(native, accounts, amounts),
        accounts.len() != token_expected_accounts(amounts.len() as int),
        accounts.len() != native_expected_accounts(amounts.len() as int),
    ensures
        token.failure == Some(ProcessError::AccountCountMismatch),
        token.calls@.len() == 0,
        native.failure == Some(ProcessError::AccountCountMismatch),
        native.calls@.len() == 0,
{
}

/// Law: on the token path an unsigned authority stops the batch before any
/// downstream invocation is planned.
pub proof fn lemma_token_unsigned_authority_plans_nothing(
    r: TransferPlan,
    accounts: Seq<AccountHandle>,
    amounts: Seq<u64>,
)
    requires
        token_plan_ok(r, accounts, amounts),
        accounts.len() == token_expected_accounts(amounts.len() as int),
        accounts[1].key@ == token_program_id_bytes(),
        !accounts[0].is_signer,
    ensures
        r.failure == Some(ProcessError::MissingSignature),
        r.calls@.len() == 0,
{
}

/// Law: on the native path the signer check runs inside the loop, so the
/// transfers before the first unsigned source are still planned — exactly
/// those — and the batch then fails with `MissingSignature`.
pub proof fn lemma_native_unsigned_source_stops_at_first(
    r: TransferPlan,
    accounts: Seq<AccountHandle>,
    amounts: Seq<u64>,
    j: int,
)
    requires
        native_plan_ok(r, accounts, amounts),
        accounts.len() == native_expected_accounts(amounts.len() as int),
        accounts[0].key@ == native_program_id_bytes(),
        0 <= j < amounts.len(),
        forall|i: int| 0 <= i < j ==> (#[trigger] accounts[native_source_position(i)]).is_signer,
        !accounts[native_source_position(j)].is_signer,
    ensures
        r.calls@.len() == j,
        r.failure == Some(ProcessError::MissingSignature),
        forall|i: int| 0 <= i < j ==> native_call_ok(#[trigger] r.calls@[i], accounts, amounts, i),
{
    let k = r.calls@.len() as int;
    if k < j {
        assert(accounts[native_source_position(k)].is_signer);
        assert(false);
    }
    if k > j {
        assert(accounts[native_source_position(j)].is_signer);
        assert(false);
    }
}

} // verus!
