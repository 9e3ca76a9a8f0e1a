//! A calculator program for an account-based runtime.
//!
//! An instruction is nine bytes: an opcode and two 32-bit operands. The program
//! decodes it, checks that the target account belongs to the program, computes
//! the result and stores it as the account's whole state. Each call is one
//! atomic step: either the new state is written or the accounts stay exactly as
//! they were.
//!
//! Arithmetic is checked. A sum above `u32::MAX` or a difference below zero is
//! reported as [`ProcessError::ArithmeticOverflow`]; nothing wraps.
//!
//! Nothing here logs. A caller that wants a trace of what was computed decodes
//! the instruction and reads the state back after a successful run.

pub mod account;
pub mod instruction;
pub mod wire;

use account::{Account, AccountView, Identity};
use instruction::{
    first_operand, second_operand, CalculatorInstruction, DecodeError, INSTRUCTION_LEN, OPCODE_ADD,
    OPCODE_SUBTRACT,
};
use vstd::prelude::*;
use wire::{read_u32, u32_from_le, u32_to_le, write_u32};

verus! {

/// Length in bytes of an account's stored state.
pub const STATE_LEN: usize = 4;

/// Why an instruction was not carried out.
#[derive(Debug, Clone, Copy, PartialEq, Eq, Structural)]
pub enum ProcessError {
    /// No account was passed in.
    MissingAccount,
    /// The target account belongs to another program.
    IncorrectOwner,
    /// The target account's data is not one 4-byte state record.
    CorruptState,
    /// The exact result is not an unsigned 32-bit number.
    ArithmeticOverflow,
    /// The instruction bytes could not be decoded.
    Decode(DecodeError),
}

/// The state stored in a calculator account: the last result computed.
///
/// On the account it is exactly four bytes, the little-endian `result`.
#[derive(Debug, Clone, Copy, PartialEq, Eq, Structural)]
pub struct CalculatorAccount {
    /// Result of the last operation carried out.
    pub result: u32,
}

impl CalculatorAccount {
    /// The state that account data stands for. Data of any length but four is
    /// no state record.
    pub open spec fn decoded(data: Seq<u8>) -> Result<CalculatorAccount, ProcessError> {
        if data.len() == STATE_LEN {
            Ok(CalculatorAccount { result: u32_from_le(data) })
        } else {
            Err(ProcessError::CorruptState)
        }
    }

    /// The account data that stands for this state.
    pub open spec fn encoded(self) -> Seq<u8> {
        u32_to_le(self.result)
    }

    /// Reads a state record.
    pub fn try_from_slice(data: &[u8]) -> (r: Result<CalculatorAccount, ProcessError>)
        ensures
            r == Self::decoded(data@),
    {
        match read_u32(data) {
            Some(result) => Ok(CalculatorAccount { result }),
            None => Err(ProcessError::CorruptState),
        }
    }

    /// Writes the state record.
    pub fn to_vec(&self) -> (data: Vec<u8>)
        ensures
            data@ == self.encoded(),
    {
        write_u32(self.result).unwrap()
    }
}

/// The state that processing commits to the first account, or the reason why
/// nothing is committed.
///
/// The checks come in a fixed order: an account must be there; the program must
/// own it; the instruction must decode; the account must hold a state record;
/// the arithmetic must not overflow. The state stored before plays no part in
/// the new one.
pub open spec fn next_state(program_id: Seq<u8>, accounts: Seq<AccountView>, input: Seq<u8>) -> Result<
    CalculatorAccount,
    ProcessError,
> {
    if accounts.len() == 0 {
        Err(ProcessError::MissingAccount)
    } else if accounts[0].owner != program_id {
        Err(ProcessError::IncorrectOwner)
    } else {
        match CalculatorInstruction::decoded(input) {
            Err(e) => Err(ProcessError::Decode(e)),
            Ok(instruction) => match CalculatorAccount::decoded(accounts[0].data) {
                Err(e) => Err(e),
                Ok(_) => match instruction.outcome() {
                    Some(result) => Ok(CalculatorAccount { result }),
                    None => Err(ProcessError::ArithmeticOverflow),
                },
            },
        }
    }
}

/// What processing reports to its caller: success, or the first check that
/// failed.
pub open spec fn outcome(program_id: Seq<u8>, accounts: Seq<AccountView>, input: Seq<u8>) -> Result<
    (),
    ProcessError,
> {
    match next_state(program_id, accounts, input) {
        Ok(_) => Ok(()),
        Err(e) => Err(e),
    }
}

/// The accounts as processing leaves them: on success the first account's data
/// is the new state record and nothing else has changed; on failure nothing has
/// changed at all.
pub open spec fn accounts_after(
    program_id: Seq<u8>,
    accounts: Seq<AccountView>,
    input: Seq<u8>,
) -> Seq<AccountView> {
    match next_state(program_id, accounts, input) {
        Ok(state) => accounts.update(
            0,
            AccountView { owner: accounts[0].owner, data: state.encoded() },
        ),
        Err(_) => accounts,
    }
}

/// Carries out one instruction against the first of `accounts`.
///
/// The account must be owned by `program_id` and hold a state record, and the
/// instruction must decode and compute without overflow; the result then
/// replaces the account's data. Writing the new record is the last step, so a
/// call that fails has written nothing. Accounts after the first are neither
/// read nor written.
pub fn process_instruction(
    program_id: &Identity,
    accounts: &mut [Account],
    instruction_data: &[u8],
) -> (r: Result<(), ProcessError>)
    ensures
        r == outcome(program_id@, old(accounts).deep_view(), instruction_data@),
        final(accounts).deep_view() == accounts_after(
            program_id@,
            old(accounts).deep_view(),
            instruction_data@,
        ),
        r is Err ==> final(accounts)@ == old(accounts)@,
        final(accounts)@.len() == old(accounts)@.len(),
        forall|i: int| 1 <= i < old(accounts)@.len() ==> final(accounts)@[i] == old(accounts)@[i],
{
    if accounts.len() == 0 {
        return Err(ProcessError::MissingAccount);
    }
    if accounts[0].owner != *program_id {
        return Err(ProcessError::IncorrectOwner);
    }
    let instruction = match CalculatorInstruction::unpack(instruction_data) {
        Ok(instruction) => instruction,
        Err(e) => { return Err(ProcessError::Decode(e)); },
    };
    let mut state = match CalculatorAccount::try_from_slice(accounts[0].data.as_slice()) {
        Ok(state) => state,
        Err(e) => { return Err(e); },
    };
    state.result = match instruction.evaluate() {
        Some(result) => result,
        None => { return Err(ProcessError::ArithmeticOverflow); },
    };
    accounts[0].data = state.to_vec();
    Ok(())
}

/// A state written to an account and read back is the same state.
pub proof fn lemma_state_round_trip(state: CalculatorAccount)
    ensures
        state.encoded().len() == STATE_LEN,
        CalculatorAccount::decoded(state.encoded()) == Ok::<CalculatorAccount, ProcessError>(state),
{
    wire::lemma_decode_encoded(state.result);
}

/// A state record read from an account and written back is the same record, so
/// every state has exactly one record.
pub proof fn lemma_record_round_trip(data: Seq<u8>)
    requires
        CalculatorAccount::decoded(data) is Ok,
    ensures
        CalculatorAccount::decoded(data).unwrap().encoded() == data,
{
    wire::lemma_encode_decoded(data);
}

/// After a successful run the first account holds a state record, and it is
/// the record of the state that was committed.
pub proof fn lemma_committed_state_reads_back(
    program_id: Seq<u8>,
    accounts: Seq<AccountView>,
    input: Seq<u8>,
)
    requires
        outcome(program_id, accounts, input) is Ok,
    ensures
        CalculatorAccount::decoded(accounts_after(program_id, accounts, input)[0].data)
            == next_state(program_id, accounts, input),
{
    lemma_state_round_trip(next_state(program_id, accounts, input).unwrap());
}

/// Processing keeps an account well-formed: it never changes who owns the
/// first account, and an account that held a state record holds one after the
/// call, whether the call succeeded or not.
pub proof fn lemma_state_record_preserved(
    program_id: Seq<u8>,
    accounts: Seq<AccountView>,
    input: Seq<u8>,
)
    requires
        accounts.len() > 0,
        CalculatorAccount::decoded(accounts[0].data) is Ok,
    ensures
        accounts_after(program_id, accounts, input).len() == accounts.len(),
        accounts_after(program_id, accounts, input)[0].owner == accounts[0].owner,
        CalculatorAccount::decoded(accounts_after(program_id, accounts, input)[0].data) is Ok,
{
    if outcome(program_id, accounts, input) is Ok {
        lemma_committed_state_reads_back(program_id, accounts, input);
    }
}

/// Whether processing gets as far as decoding the instruction: the first
/// account is there and the program owns it.
pub open spec fn owns_target(program_id: Seq<u8>, accounts: Seq<AccountView>) -> bool {
    accounts.len() > 0 && accounts[0].owner == program_id
}

/// Whether the first account is there, is owned by the program and holds a
/// state record.
pub open spec fn target_ready(program_id: Seq<u8>, accounts: Seq<AccountView>) -> bool {
    owns_target(program_id, accounts) && CalculatorAccount::decoded(accounts[0].data) is Ok
}

/// A nine-byte instruction with the opcode of addition whose operands sum to
/// at most `u32::MAX`, processed against a ready account, succeeds, and the
/// state read back from the account is the sum.
pub proof fn lemma_add_stores_sum(program_id: Seq<u8>, accounts: Seq<AccountView>, input: Seq<u8>)
    requires
        target_ready(program_id, accounts),
        input.len() == INSTRUCTION_LEN,
        input[0] == OPCODE_ADD,
        first_operand(input) + second_operand(input) <= u32::MAX,
    ensures
        outcome(program_id, accounts, input) is Ok,
        CalculatorAccount::decoded(accounts_after(program_id, accounts, input)[0].data) matches Ok(
            state,
        ) && state.result == first_operand(input) + second_operand(input),
{
    lemma_committed_state_reads_back(program_id, accounts, input);
}

/// A nine-byte instruction with the opcode of subtraction whose first operand
/// is at least the second, processed against a ready account, succeeds, and
/// the state read back from the account is the difference.
pub proof fn lemma_subtract_stores_difference(
    program_id: Seq<u8>,
    accounts: Seq<AccountView>,
    input: Seq<u8>,
)
    requires
        target_ready(program_id, accounts),
        input.len() == INSTRUCTION_LEN,
        input[0] == OPCODE_SUBTRACT,
        first_operand(input) >= second_operand(input),
    ensures
        outcome(program_id, accounts, input) is Ok,
        CalculatorAccount::decoded(accounts_after(program_id, accounts, input)[0].data) matches Ok(
            state,
        ) && state.result == first_operand(input) - second_operand(input),
{
    lemma_committed_state_reads_back(program_id, accounts, input);
}

/// A nine-byte instruction whose opcode names neither operation is refused as
/// unknown, and the accounts stay as they were.
pub proof fn lemma_unknown_opcode_refused(
    program_id: Seq<u8>,
    accounts: Seq<AccountView>,
    input: Seq<u8>,
)
    requires
        owns_target(program_id, accounts),
        input.len() == INSTRUCTION_LEN,
        input[0] != OPCODE_ADD,
        input[0] != OPCODE_SUBTRACT,
    ensures
        outcome(program_id, accounts, input) == Err::<(), ProcessError>(
            ProcessError::Decode(DecodeError::UnknownOpcode),
        ),
        accounts_after(program_id, accounts, input) == accounts,
{
}

/// An instruction that is not empty and not nine bytes long is refused as
/// malformed, whatever its opcode, and the accounts stay as they were.
pub proof fn lemma_wrong_length_refused(
    program_id: Seq<u8>,
    accounts: Seq<AccountView>,
    input: Seq<u8>,
)
    requires
        owns_target(program_id, accounts),
        input.len() != 0,
        input.len() != INSTRUCTION_LEN,
    ensures
        outcome(program_id, accounts, input) == Err::<(), ProcessError>(
            ProcessError::Decode(DecodeError::MalformedOperands),
        ),
        accounts_after(program_id, accounts, input) == accounts,
{
}

/// An empty instruction is refused for want of an opcode, and the accounts stay
/// as they were.
pub proof fn lemma_empty_instruction_refused(
    program_id: Seq<u8>,
    accounts: Seq<AccountView>,
    input: Seq<u8>,
)
    requires
        owns_target(program_id, accounts),
        input.len() == 0,
    ensures
        outcome(program_id, accounts, input) == Err::<(), ProcessError>(
            ProcessError::Decode(DecodeError::MissingOpcode),
        ),
        accounts_after(program_id, accounts, input) == accounts,
{
}

/// An account that another program owns is refused whatever the instruction
/// bytes are, well-formed or not, and the accounts stay as they were.
pub proof fn lemma_foreign_owner_refused(
    program_id: Seq<u8>,
    accounts: Seq<AccountView>,
    input: Seq<u8>,
)
    requires
        accounts.len() > 0,
        accounts[0].owner != program_id,
    ensures
        outcome(program_id, accounts, input) == Err::<(), ProcessError>(
            ProcessError::IncorrectOwner,
        ),
        accounts_after(program_id, accounts, input) == accounts,
{
}

/// The result replaces the stored state and is never added to it: whichever
/// state record the account held, the same instruction commits the same state.
pub proof fn lemma_prior_state_ignored(
    program_id: Seq<u8>,
    accounts: Seq<AccountView>,
    input: Seq<u8>,
    other_record: Seq<u8>,
)
    requires
        accounts.len() > 0,
        CalculatorAccount::decoded(accounts[0].data) is Ok,
        CalculatorAccount::decoded(other_record) is Ok,
    ensures
        next_state(
            program_id,
            accounts.update(0, (AccountView { owner: accounts[0].owner, data: other_record })),
            input,
        ) == next_state(program_id, accounts, input),
{
}

/// Processing the same instruction a second time has the outcome of the first
/// and leaves the accounts as the first run left them: a sum of 7 is stored as
/// 7 again, not as 14.
pub proof fn lemma_repeat_commits_same_state(
    program_id: Seq<u8>,
    accounts: Seq<AccountView>,
    input: Seq<u8>,
)
    ensures
        outcome(program_id, accounts_after(program_id, accounts, input), input) == outcome(
            program_id,
            accounts,
            input,
        ),
        accounts_after(program_id, accounts_after(program_id, accounts, input), input)
            == accounts_after(program_id, accounts, input),
{
    let after = accounts_after(program_id, accounts, input);
    if outcome(program_id, accounts, input) is Ok {
        lemma_committed_state_reads_back(program_id, accounts, input);
    }
    assert(accounts_after(program_id, after, input) =~= after);
}

} // verus!
