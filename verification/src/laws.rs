//! What holds of the protocol whatever the accounts and the instructions are.

use crate::account::AccountView;
use crate::address::{counter_address, counter_seeds, seed_tag, Address};
use crate::error::ProgramError;
use crate::instruction::{
    decode_instruction, discriminator, encode_instruction, lemma_instruction_round_trip,
    InstructionView, Operation,
};
use crate::processor::{
    completion, execute, increase_counter_result, init_counter_plan, instruction_outcome,
    is_counter_account, with_counter_data,
};
use crate::service::{ServiceCallView, ServiceOutcome};
use crate::state::{lemma_counter_round_trip, Counter};
use crate::wire::{encode_items, fits_wire};
use vstd::prelude::*;

verus! {

/// Two increases, one after the other; the second runs on what the first
/// left, and a failure of the first is the failure of both.
pub open spec fn increase_twice(
    program_id: Address,
    accounts: Seq<AccountView>,
    first: u64,
    second: u64,
) -> Result<Seq<AccountView>, ProgramError> {
    match increase_counter_result(program_id, accounts, first) {
        Ok(next) => increase_counter_result(program_id, next, second),
        Err(error) => Err(error),
    }
}

/// Additivity: increasing by `a` and then by `b` ends as one increase by
/// `a + b` does, in the accounts it leaves and in the error it fails with.
pub proof fn lemma_increase_counter_additive(
    program_id: Address,
    accounts: Seq<AccountView>,
    a: u64,
    b: u64,
)
    requires
        a + b <= u64::MAX,
    ensures
        increase_twice(program_id, accounts, a, b) == increase_counter_result(
            program_id,
            accounts,
            (a + b) as u64,
        ),
{
    if accounts.len() >= 2 && is_counter_account(program_id, accounts[0].key, accounts[1].key) {
        match Counter::decoding(accounts[1].data) {
            None => {},
            Some(counter) => {
                if counter.count + a <= u64::MAX {
                    let middle = Counter { count: (counter.count + a) as u64 };
                    let next = with_counter_data(accounts, middle.encoding());
                    lemma_counter_round_trip(middle);
                    assert(increase_counter_result(program_id, accounts, a) == Ok::<
                        Seq<AccountView>,
                        ProgramError,
                    >(next));
                    if counter.count + a + b <= u64::MAX {
                        let last = Counter { count: (counter.count + a + b) as u64 };
                        assert(with_counter_data(next, last.encoding()) =~= with_counter_data(
                            accounts,
                            last.encoding(),
                        ));
                    }
                }
            },
        }
    }
}

/// A successful increase leaves a counter account of exactly eight bytes
/// that stores the sum, and touches no other account.
pub proof fn lemma_increase_counter_stores_sum(
    program_id: Address,
    accounts: Seq<AccountView>,
    increase_by: u64,
)
    requires
        increase_counter_result(program_id, accounts, increase_by) is Ok,
    ensures
        ({
            let next = increase_counter_result(program_id, accounts, increase_by)->Ok_0;
            let before = Counter::decoding(accounts[1].data)->Some_0;
            &&& next.len() == accounts.len()
            &&& next[1].data.len() == 8
            &&& Counter::decoding(next[1].data) == Some(
                Counter { count: (before.count + increase_by) as u64 },
            )
            &&& next[1].key == accounts[1].key
            &&& next[1].lamports == accounts[1].lamports
            &&& forall|i: int| 0 <= i < accounts.len() && i != 1 ==> next[i] == accounts[i]
        }),
{
    let before = Counter::decoding(accounts[1].data)->Some_0;
    lemma_counter_round_trip(Counter { count: (before.count + increase_by) as u64 });
}

/// Initialising twice is initialising once. `before` is a list on which
/// `InitCounter` asks for the counter account to be allocated, and `created`
/// is that list after the allocation service has funded the account and
/// given it eight bytes. Completing the request stores the count zero, and a
/// second `InitCounter` then asks for nothing and changes nothing.
pub proof fn lemma_init_counter_idempotent(
    program_id: Address,
    before: Seq<AccountView>,
    created: Seq<AccountView>,
)
    requires
        init_counter_plan(program_id, before) is Ok,
        init_counter_plan(program_id, before)->Ok_0 is Some,
        created.len() == before.len(),
        created[0].key == before[0].key,
        created[1].key == before[1].key,
        created[1].lamports != 0,
        created[1].data.len() == 8,
    ensures
        ({
            let call = init_counter_plan(program_id, before)->Ok_0->Some_0;
            let after = completion(created, call, ServiceOutcome::Completed);
            &&& after is Ok
            &&& Counter::decoding(after->Ok_0[1].data) == Some(Counter { count: 0 })
            &&& execute(program_id, after->Ok_0, InstructionView::InitCounter) == Ok::<
                (Seq<AccountView>, Option<ServiceCallView>),
                ProgramError,
            >((after->Ok_0, None))
        }),
{
    lemma_counter_round_trip(Counter { count: 0 });
}

/// An account that holds a balance is never allocated again: on it
/// `InitCounter` asks for nothing, however often it is applied.
pub proof fn lemma_init_counter_on_existing(program_id: Address, accounts: Seq<AccountView>)
    requires
        accounts.len() >= 3,
        is_counter_account(program_id, accounts[0].key, accounts[1].key),
        accounts[1].lamports != 0,
    ensures
        execute(program_id, accounts, InstructionView::InitCounter) == Ok::<
            (Seq<AccountView>, Option<ServiceCallView>),
            ProgramError,
        >((accounts, None)),
{
}

/// A counter operation on a counter account that is not the derived one is
/// rejected with `AddressMismatch`, whatever the account stores.
pub proof fn lemma_wrong_counter_account_rejected(
    program_id: Address,
    accounts: Seq<AccountView>,
    increase_by: u64,
)
    requires
        accounts.len() >= 3,
        !is_counter_account(program_id, accounts[0].key, accounts[1].key),
    ensures
        execute(program_id, accounts, InstructionView::InitCounter) == Err::<
            (Seq<AccountView>, Option<ServiceCallView>),
            ProgramError,
        >(ProgramError::AddressMismatch),
        execute(program_id, accounts, InstructionView::IncreaseCounter { increase_by }) == Err::<
            (Seq<AccountView>, Option<ServiceCallView>),
            ProgramError,
        >(ProgramError::AddressMismatch),
{
}

/// Only `IncreaseCounter` changes what an account holds. The operations that
/// move the counter between the base ledger and the rollup hand it to a
/// service as it is.
pub proof fn lemma_migration_keeps_accounts(
    program_id: Address,
    accounts: Seq<AccountView>,
    instruction: InstructionView,
)
    requires
        !(instruction is IncreaseCounter),
        execute(program_id, accounts, instruction) is Ok,
    ensures
        execute(program_id, accounts, instruction)->Ok_0.0 == accounts,
{
}

/// A request that the service could not fulfil fails the invocation, and a
/// fulfilled request other than an allocation needs nothing more.
pub proof fn lemma_completion_of_migration(
    accounts: Seq<AccountView>,
    call: ServiceCallView,
    outcome: ServiceOutcome,
)
    ensures
        outcome is Failed ==> completion(accounts, call, outcome) == Err::<
            Seq<AccountView>,
            ProgramError,
        >(ProgramError::ExternalServiceFailure),
        outcome is Completed && !(call is CreateAccount) ==> completion(accounts, call, outcome)
            == Ok::<Seq<AccountView>, ProgramError>(accounts),
{
}

/// The counter account that the derivation gives for an owner is accepted
/// for that owner, every time: neither counter operation answers it with
/// `AddressMismatch`.
pub proof fn lemma_derived_counter_account_accepted(
    program_id: Address,
    accounts: Seq<AccountView>,
    increase_by: u64,
)
    requires
        accounts.len() >= 3,
        counter_address(program_id@, accounts[0].key@) is Some,
        accounts[1].key@ == counter_address(program_id@, accounts[0].key@)->Some_0.0,
    ensures
        init_counter_plan(program_id, accounts) is Ok,
        increase_counter_result(program_id, accounts, increase_by) != Err::<
            Seq<AccountView>,
            ProgramError,
        >(ProgramError::AddressMismatch),
{
}

/// The counter account of one owner is rejected for every owner whose
/// derivation gives another address, or none.
pub proof fn lemma_counter_of_another_owner_rejected(
    program_id: Address,
    accounts: Seq<AccountView>,
    other_owner: Address,
    increase_by: u64,
)
    requires
        accounts.len() >= 3,
        is_counter_account(program_id, other_owner, accounts[1].key),
        counter_address(program_id@, accounts[0].key@) is Some ==> counter_address(
            program_id@,
            accounts[0].key@,
        )->Some_0.0 != counter_address(program_id@, other_owner@)->Some_0.0,
    ensures
        init_counter_plan(program_id, accounts) == Err::<Option<ServiceCallView>, ProgramError>(
            ProgramError::AddressMismatch,
        ),
        increase_counter_result(program_id, accounts, increase_by) == Err::<
            Seq<AccountView>,
            ProgramError,
        >(ProgramError::AddressMismatch),
{
}

/// `Delegate` asks for the delegation whenever eight accounts came, whoever
/// signed: the request names the counter account with the derivation seeds
/// of the owner, without a bump.
pub proof fn lemma_delegation_is_requested(program_id: Address, accounts: Seq<AccountView>)
    requires
        accounts.len() >= 8,
    ensures
        execute(program_id, accounts, InstructionView::Delegate) is Ok,
        execute(program_id, accounts, InstructionView::Delegate)->Ok_0.0 == accounts,
        execute(program_id, accounts, InstructionView::Delegate)->Ok_0.1 matches Some(
            ServiceCallView::Delegate { payer, pda, pda_seeds, .. },
        ) && payer == accounts[0].key && pda == accounts[1].key && pda_seeds == counter_seeds(
            accounts[0].key@,
        ),
{
}

/// An instruction that arrives in its wire form is carried out as the
/// instruction it encodes.
pub proof fn lemma_dispatch_of_wire_form(
    program_id: Address,
    accounts: Seq<AccountView>,
    instruction: InstructionView,
)
    requires
        instruction matches InstructionView::Undelegate { pda_seeds } ==> fits_wire(pda_seeds),
    ensures
        instruction_outcome(program_id, accounts, encode_instruction(instruction)) == execute(
            program_id,
            accounts,
            instruction,
        ),
{
    lemma_instruction_round_trip(instruction);
}

/// The bytes of an `Undelegate` instruction that names the derivation seeds
/// of the counter of `owner`: the discriminator, the count of two seeds, and
/// each seed behind its length.
pub open spec fn undelegate_counter_wire(owner: Seq<u8>) -> Seq<u8> {
    discriminator(Operation::Undelegate) + seq![2u8, 0u8, 0u8, 0u8] + seq![11u8, 0u8, 0u8, 0u8]
        + seed_tag() + seq![32u8, 0u8, 0u8, 0u8] + owner
}

/// Those bytes decode to `Undelegate` with the seeds `[counter_acc, owner]`,
/// and with four accounts the dispatcher asks the delegation service to
/// release the first of them, under this program, with exactly these seeds.
pub proof fn lemma_undelegate_counter_from_wire(
    program_id: Address,
    accounts: Seq<AccountView>,
    owner: Seq<u8>,
)
    requires
        owner.len() == 32,
        accounts.len() >= 4,
    ensures
        decode_instruction(undelegate_counter_wire(owner)) == Ok::<InstructionView, ProgramError>(
            InstructionView::Undelegate { pda_seeds: counter_seeds(owner) },
        ),
        instruction_outcome(program_id, accounts, undelegate_counter_wire(owner)) == Ok::<
            (Seq<AccountView>, Option<ServiceCallView>),
            ProgramError,
        >(
            (
                accounts,
                Some(
                    ServiceCallView::Undelegate {
                        delegated_account: accounts[0].key,
                        owner_program: program_id,
                        buffer: accounts[1].key,
                        payer: accounts[2].key,
                        system_program: accounts[3].key,
                        pda_seeds: counter_seeds(owner),
                    },
                ),
            ),
        ),
{
    let seeds = counter_seeds(owner);
    let instruction = InstructionView::Undelegate { pda_seeds: seeds };
    reveal_with_fuel(encode_items, 3);
    assert(seeds.skip(1) =~= seq![owner]);
    assert(seeds.skip(1).skip(1) =~= Seq::<Seq<u8>>::empty());
    assert(encode_instruction(instruction) =~= undelegate_counter_wire(owner));
    lemma_dispatch_of_wire_form(program_id, accounts, instruction);
    lemma_instruction_round_trip(instruction);
}

} // verus!
