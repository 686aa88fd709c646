//! The instruction codec: from a byte buffer to one of six operations.

use crate::error::ProgramError;
use crate::wire::{
    decode_seed_list, encode_seed_list, fits_wire, lemma_decode_seed_list, seed_list_from_slice,
    u64_from_slice,
};
use vstd::bytes::*;
use vstd::prelude::*;

verus! {

/// The six operations an instruction can ask for.
#[derive(Clone, Copy, Debug, PartialEq, Eq, Structural)]
pub enum Operation {
    InitCounter,
    IncreaseCounter,
    Delegate,
    CommitAndUndelegate,
    Commit,
    Undelegate,
}

/// A decoded instruction: the operation with its payload.
#[derive(Clone, Debug, PartialEq, Eq)]
pub enum ProgramInstruction {
    /// Creates the owner's counter on the base ledger, with the value zero.
    InitCounter,
    /// Adds to the counter, on the base ledger or inside the rollup.
    IncreaseCounter { increase_by: u64 },
    /// Moves authority over the counter account to the rollup.
    Delegate,
    /// Copies the counter back to the base ledger and ends the delegation.
    CommitAndUndelegate,
    /// Copies the counter back to the base ledger; the rollup stays in charge.
    Commit,
    /// Ends the delegation of the account that the given seeds derive.
    Undelegate { pda_seeds: Vec<Vec<u8>> },
}

/// What a decoded instruction holds.
pub enum InstructionView {
    InitCounter,
    IncreaseCounter { increase_by: u64 },
    Delegate,
    CommitAndUndelegate,
    Commit,
    Undelegate { pda_seeds: Seq<Seq<u8>> },
}

impl View for ProgramInstruction {
    type V = InstructionView;

    open spec fn view(&self) -> InstructionView {
        match *self {
            ProgramInstruction::InitCounter => InstructionView::InitCounter,
            ProgramInstruction::IncreaseCounter { increase_by } => InstructionView::IncreaseCounter {
                increase_by,
            },
            ProgramInstruction::Delegate => InstructionView::Delegate,
            ProgramInstruction::CommitAndUndelegate => InstructionView::CommitAndUndelegate,
            ProgramInstruction::Commit => InstructionView::Commit,
            ProgramInstruction::Undelegate { pda_seeds } => InstructionView::Undelegate {
                pda_seeds: pda_seeds.deep_view(),
            },
        }
    }
}

/// The number of bytes at the head of an instruction that name its operation.
pub const DISCRIMINATOR_LEN: usize = 8;

/// The table of discriminators: the eight bytes that name each operation.
/// Five are small numbers in little-endian order; `Undelegate` has a tag
/// taken from a hash, which no small number collides with.
pub open spec fn discriminator(operation: Operation) -> Seq<u8> {
    match operation {
        Operation::InitCounter => seq![0u8, 0u8, 0u8, 0u8, 0u8, 0u8, 0u8, 0u8],
        Operation::IncreaseCounter => seq![1u8, 0u8, 0u8, 0u8, 0u8, 0u8, 0u8, 0u8],
        Operation::Delegate => seq![2u8, 0u8, 0u8, 0u8, 0u8, 0u8, 0u8, 0u8],
        Operation::CommitAndUndelegate => seq![3u8, 0u8, 0u8, 0u8, 0u8, 0u8, 0u8, 0u8],
        Operation::Commit => seq![4u8, 0u8, 0u8, 0u8, 0u8, 0u8, 0u8, 0u8],
        Operation::Undelegate => seq![196u8, 28u8, 41u8, 206u8, 48u8, 37u8, 51u8, 167u8],
    }
}

/// The operation that a discriminator names, if it names one.
pub open spec fn operation_of(tag: Seq<u8>) -> Option<Operation> {
    if tag == discriminator(Operation::InitCounter) {
        Some(Operation::InitCounter)
    } else if tag == discriminator(Operation::IncreaseCounter) {
        Some(Operation::IncreaseCounter)
    } else if tag == discriminator(Operation::Delegate) {
        Some(Operation::Delegate)
    } else if tag == discriminator(Operation::CommitAndUndelegate) {
        Some(Operation::CommitAndUndelegate)
    } else if tag == discriminator(Operation::Commit) {
        Some(Operation::Commit)
    } else if tag == discriminator(Operation::Undelegate) {
        Some(Operation::Undelegate)
    } else {
        None
    }
}

/// What an instruction buffer decodes to. A buffer shorter than a
/// discriminator is malformed whatever it holds; the payload of an operation
/// that takes none is not looked at.
pub open spec fn decode_instruction(input: Seq<u8>) -> Result<InstructionView, ProgramError> {
    if input.len() < 8 {
        Err(ProgramError::MalformedInput)
    } else {
        let payload = input.skip(8);
        match operation_of(input.take(8)) {
            None => Err(ProgramError::UnknownOperation),
            Some(Operation::InitCounter) => Ok(InstructionView::InitCounter),
            Some(Operation::IncreaseCounter) => if payload.len() == 8 {
                Ok(InstructionView::IncreaseCounter { increase_by: spec_u64_from_le_bytes(payload) })
            } else {
                Err(ProgramError::MalformedInput)
            },
            Some(Operation::Delegate) => Ok(InstructionView::Delegate),
            Some(Operation::CommitAndUndelegate) => Ok(InstructionView::CommitAndUndelegate),
            Some(Operation::Commit) => Ok(InstructionView::Commit),
            Some(Operation::Undelegate) => match decode_seed_list(payload) {
                Some(pda_seeds) => Ok(InstructionView::Undelegate { pda_seeds }),
                None => Err(ProgramError::MalformedInput),
            },
        }
    }
}

/// The operation an instruction asks for.
pub open spec fn operation(instruction: InstructionView) -> Operation {
    match instruction {
        InstructionView::InitCounter => Operation::InitCounter,
        InstructionView::IncreaseCounter { .. } => Operation::IncreaseCounter,
        InstructionView::Delegate => Operation::Delegate,
        InstructionView::CommitAndUndelegate => Operation::CommitAndUndelegate,
        InstructionView::Commit => Operation::Commit,
        InstructionView::Undelegate { .. } => Operation::Undelegate,
    }
}

/// The payload an instruction carries on the wire.
pub open spec fn payload(instruction: InstructionView) -> Seq<u8> {
    match instruction {
        InstructionView::IncreaseCounter { increase_by } => spec_u64_to_le_bytes(increase_by),
        InstructionView::Undelegate { pda_seeds } => encode_seed_list(pda_seeds),
        _ => Seq::empty(),
    }
}

/// An instruction on the wire: its discriminator, then its payload.
pub open spec fn encode_instruction(instruction: InstructionView) -> Seq<u8> {
    discriminator(operation(instruction)) + payload(instruction)
}

/// The discriminator of an operation, as bytes.
pub fn discriminator_bytes(operation: Operation) -> (tag: [u8; 8])
    ensures
        tag@ == discriminator(operation),
{
    let tag: [u8; 8] = match operation {
        Operation::InitCounter => [0u8, 0u8, 0u8, 0u8, 0u8, 0u8, 0u8, 0u8],
        Operation::IncreaseCounter => [1u8, 0u8, 0u8, 0u8, 0u8, 0u8, 0u8, 0u8],
        Operation::Delegate => [2u8, 0u8, 0u8, 0u8, 0u8, 0u8, 0u8, 0u8],
        Operation::CommitAndUndelegate => [3u8, 0u8, 0u8, 0u8, 0u8, 0u8, 0u8, 0u8],
        Operation::Commit => [4u8, 0u8, 0u8, 0u8, 0u8, 0u8, 0u8, 0u8],
        Operation::Undelegate => [196u8, 28u8, 41u8, 206u8, 48u8, 37u8, 51u8, 167u8],
    };
    assert(tag@ =~= discriminator(operation));
    tag
}

/// Whether `tag` is the discriminator of `operation`.
fn names(tag: &[u8], operation: Operation) -> (r: bool)
    ensures
        r == (tag@ == discriminator(operation)),
{
    let expected = discriminator_bytes(operation);
    if tag.len() != DISCRIMINATOR_LEN {
        return false;
    }
    let mut i: usize = 0;
    while i < 8
        invariant
            i <= 8,
            tag@.len() == 8,
            expected@ == discriminator(operation),
            forall|j: int| 0 <= j < i ==> tag@[j] == expected@[j],
        decreases 8 - i,
    {
        if tag[i] != expected[i] {
            return false;
        }
        i += 1;
    }
    assert(tag@ =~= expected@);
    true
}

/// Looks a discriminator up in the table.
pub fn lookup_operation(tag: &[u8]) -> (r: Option<Operation>)
    ensures
        r == operation_of(tag@),
{
    if names(tag, Operation::InitCounter) {
        Some(Operation::InitCounter)
    } else if names(tag, Operation::IncreaseCounter) {
        Some(Operation::IncreaseCounter)
    } else if names(tag, Operation::Delegate) {
        Some(Operation::Delegate)
    } else if names(tag, Operation::CommitAndUndelegate) {
        Some(Operation::CommitAndUndelegate)
    } else if names(tag, Operation::Commit) {
        Some(Operation::Commit)
    } else if names(tag, Operation::Undelegate) {
        Some(Operation::Undelegate)
    } else {
        None
    }
}

impl ProgramInstruction {
    /// Decodes an instruction buffer: eight bytes that name the operation,
    /// then its payload. Nothing but the buffer is read and nothing is
    /// changed.
    pub fn unpack(input: &[u8]) -> (r: Result<ProgramInstruction, ProgramError>)
        ensures
            match r {
                Ok(instruction) => decode_instruction(input@) == Ok::<
                    InstructionView,
                    ProgramError,
                >(instruction@),
                Err(error) => decode_instruction(input@) == Err::<InstructionView, ProgramError>(
                    error,
                ),
            },
            input@.len() < 8 ==> r == Err::<ProgramInstruction, ProgramError>(
                ProgramError::MalformedInput,
            ),
    {
        if input.len() < DISCRIMINATOR_LEN {
            return Err(ProgramError::MalformedInput);
        }
        let (tag, payload) = input.split_at(DISCRIMINATOR_LEN);
        assert(tag@ == input@.take(8));
        assert(payload@ == input@.skip(8));
        match lookup_operation(tag) {
            None => Err(ProgramError::UnknownOperation),
            Some(Operation::InitCounter) => Ok(ProgramInstruction::InitCounter),
            Some(Operation::IncreaseCounter) => match u64_from_slice(payload) {
                Ok(increase_by) => Ok(ProgramInstruction::IncreaseCounter { increase_by }),
                Err(_) => Err(ProgramError::MalformedInput),
            },
            Some(Operation::Delegate) => Ok(ProgramInstruction::Delegate),
            Some(Operation::CommitAndUndelegate) => Ok(ProgramInstruction::CommitAndUndelegate),
            Some(Operation::Commit) => Ok(ProgramInstruction::Commit),
            Some(Operation::Undelegate) => match seed_list_from_slice(payload) {
                Ok(pda_seeds) => {
                    proof {
                        lemma_decode_seed_list(payload@, pda_seeds.deep_view());
                    }
                    Ok(ProgramInstruction::Undelegate { pda_seeds })
                },
                Err(_) => Err(ProgramError::MalformedInput),
            },
        }
    }
}

/// The table names each operation once: no two operations share a
/// discriminator, and every discriminator is eight bytes long.
pub proof fn lemma_discriminators_distinct(a: Operation, b: Operation)
    ensures
        discriminator(a).len() == 8,
        discriminator(a) == discriminator(b) <==> a == b,
        operation_of(discriminator(a)) == Some(a),
{
    if a != b {
        assert(discriminator(a)[0] != discriminator(b)[0]);
    }
    assert(forall|c: Operation| c != a ==> discriminator(c)[0] != discriminator(a)[0]);
}

/// Every instruction decodes from its wire form: the discriminator selects
/// the operation and the payload gives back what was encoded.
pub proof fn lemma_instruction_round_trip(instruction: InstructionView)
    requires
        instruction matches InstructionView::Undelegate { pda_seeds } ==> fits_wire(pda_seeds),
    ensures
        decode_instruction(encode_instruction(instruction)) == Ok::<InstructionView, ProgramError>(
            instruction,
        ),
{
    let input = encode_instruction(instruction);
    let tag = discriminator(operation(instruction));
    lemma_discriminators_distinct(operation(instruction), operation(instruction));
    assert(input.take(8) =~= tag);
    assert(input.skip(8) =~= payload(instruction));
    match instruction {
        InstructionView::IncreaseCounter { increase_by } => {
            lemma_auto_spec_u64_to_from_le_bytes();
        },
        InstructionView::Undelegate { pda_seeds } => {
            lemma_decode_seed_list(payload(instruction), pda_seeds);
        },
        _ => {},
    }
}

} // verus!
