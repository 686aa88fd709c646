//! The dispatcher: it checks the accounts that come with an instruction and
//! carries the operation out, or says which service has to.
//!
//! An invocation runs in two steps around at most one request to a service.
//! `process_instruction` validates, changes what the program itself may
//! change, and returns the request, if one is needed. The host performs the
//! request, and `complete_service_call` finishes the invocation with the
//! outcome. No access to an account is held while a service runs.

use crate::account::{views, Account, AccountView};
use crate::address::{
    counter_address, counter_seed_list, counter_seeds, counter_signer_seed_list,
    counter_signer_seeds, find_counter_address, Address,
};
use crate::error::ProgramError;
use crate::instruction::{decode_instruction, InstructionView, ProgramInstruction};
use crate::service::{
    DelegateConfig, ServiceCall, ServiceCallView, ServiceOutcome, COMMIT_FREQUENCY_MS,
};
use crate::state::Counter;
use vstd::prelude::*;

verus! {

/// `supplied` is the canonical address of the counter account of `owner`
/// under the program `program_id`.
pub open spec fn is_counter_account(program_id: Address, owner: Address, supplied: Address) -> bool {
    match counter_address(program_id@, owner@) {
        Some((address, _)) => supplied@ == address,
        None => false,
    }
}

/// The bump of the counter account of `owner`.
pub open spec fn counter_bump(program_id: Address, owner: Address) -> u8 {
    counter_address(program_id@, owner@)->Some_0.1
}

/// What a list of accounts holds once the data of its counter account, the
/// second of the list, is replaced.
pub open spec fn with_counter_data(accounts: Seq<AccountView>, data: Seq<u8>) -> Seq<AccountView> {
    accounts.update(1, accounts[1].with_data(data))
}

/// The request of an operation, as it is returned, with what it holds.
pub open spec fn call_view(call: Option<ServiceCall>) -> Option<ServiceCallView> {
    match call {
        Some(call) => Some(call@),
        None => None,
    }
}

/// What `InitCounter` does with the accounts `[owner, counter, allocation
/// service]`: it asks for the counter account to be allocated when it holds
/// no balance, and nothing when it already exists.
pub open spec fn init_counter_plan(program_id: Address, accounts: Seq<AccountView>) -> Result<
    Option<ServiceCallView>,
    ProgramError,
> {
    if accounts.len() < 3 {
        Err(ProgramError::MissingAccount)
    } else if !is_counter_account(program_id, accounts[0].key, accounts[1].key) {
        Err(ProgramError::AddressMismatch)
    } else if accounts[1].lamports != 0 {
        Ok(None)
    } else {
        Ok(
            Some(
                ServiceCallView::CreateAccount {
                    payer: accounts[0].key,
                    new_account: accounts[1].key,
                    system_program: accounts[2].key,
                    space: 8,
                    owner: program_id,
                    signer_seeds: counter_signer_seeds(
                        accounts[0].key@,
                        counter_bump(program_id, accounts[0].key),
                    ),
                },
            ),
        )
    }
}

/// What `IncreaseCounter` makes of the accounts `[owner, counter]`: the
/// stored count grows by `increase_by`, and nothing else changes.
pub open spec fn increase_counter_result(
    program_id: Address,
    accounts: Seq<AccountView>,
    increase_by: u64,
) -> Result<Seq<AccountView>, ProgramError> {
    if accounts.len() < 2 {
        Err(ProgramError::MissingAccount)
    } else if !is_counter_account(program_id, accounts[0].key, accounts[1].key) {
        Err(ProgramError::AddressMismatch)
    } else {
        match Counter::decoding(accounts[1].data) {
            None => Err(ProgramError::CorruptState),
            Some(counter) => if counter.count + increase_by > u64::MAX {
                Err(ProgramError::ArithmeticOverflow)
            } else {
                Ok(
                    with_counter_data(
                        accounts,
                        Counter { count: (counter.count + increase_by) as u64 }.encoding(),
                    ),
                )
            },
        }
    }
}

/// The hints every delegation of a counter goes with.
pub open spec fn delegation_config() -> DelegateConfig {
    DelegateConfig { commit_frequency_ms: COMMIT_FREQUENCY_MS, validator: None }
}

/// The request `Delegate` makes with the accounts `[owner, counter, this
/// program, buffer, delegation record, delegation metadata, delegation
/// program, allocation service]`. A list that is long enough always gives
/// the request.
pub open spec fn delegation_plan(accounts: Seq<AccountView>) -> Result<
    ServiceCallView,
    ProgramError,
> {
    if accounts.len() < 8 {
        Err(ProgramError::MissingAccount)
    } else {
        Ok(
            ServiceCallView::Delegate {
                payer: accounts[0].key,
                pda: accounts[1].key,
                owner_program: accounts[2].key,
                buffer: accounts[3].key,
                delegation_record: accounts[4].key,
                delegation_metadata: accounts[5].key,
                delegation_program: accounts[6].key,
                system_program: accounts[7].key,
                pda_seeds: counter_seeds(accounts[0].key@),
                config: delegation_config(),
            },
        )
    }
}

/// The request `Commit` makes with the accounts `[owner, counter, magic
/// program, magic context]`.
pub open spec fn commit_plan(accounts: Seq<AccountView>) -> Result<ServiceCallView, ProgramError> {
    if accounts.len() < 4 {
        Err(ProgramError::MissingAccount)
    } else if !accounts[0].is_signer {
        Err(ProgramError::MissingSignature)
    } else {
        Ok(
            ServiceCallView::Commit {
                payer: accounts[0].key,
                accounts: seq![accounts[1].key],
                magic_context: accounts[3].key,
                magic_program: accounts[2].key,
            },
        )
    }
}

/// The request `CommitAndUndelegate` makes with the accounts `[owner,
/// counter, magic program, magic context]`.
pub open spec fn commit_and_undelegate_plan(accounts: Seq<AccountView>) -> Result<
    ServiceCallView,
    ProgramError,
> {
    if accounts.len() < 4 {
        Err(ProgramError::MissingAccount)
    } else if !accounts[0].is_signer {
        Err(ProgramError::MissingSignature)
    } else {
        Ok(
            ServiceCallView::CommitAndUndelegate {
                payer: accounts[0].key,
                accounts: seq![accounts[1].key],
                magic_context: accounts[3].key,
                magic_program: accounts[2].key,
            },
        )
    }
}

/// The request `Undelegate` makes with the accounts `[delegated account,
/// buffer, owner, allocation service]`. The seeds go to the service as they
/// came.
pub open spec fn undelegate_plan(
    program_id: Address,
    accounts: Seq<AccountView>,
    pda_seeds: Seq<Seq<u8>>,
) -> Result<ServiceCallView, ProgramError> {
    if accounts.len() < 4 {
        Err(ProgramError::MissingAccount)
    } else {
        Ok(
            ServiceCallView::Undelegate {
                delegated_account: accounts[0].key,
                owner_program: program_id,
                buffer: accounts[1].key,
                payer: accounts[2].key,
                system_program: accounts[3].key,
                pda_seeds,
            },
        )
    }
}

/// A plan that leaves the accounts as they are.
pub open spec fn keeping(
    accounts: Seq<AccountView>,
    plan: Result<ServiceCallView, ProgramError>,
) -> Result<(Seq<AccountView>, Option<ServiceCallView>), ProgramError> {
    match plan {
        Ok(call) => Ok((accounts, Some(call))),
        Err(error) => Err(error),
    }
}

/// What carrying out a decoded instruction gives: the accounts afterwards
/// and the request to hand to a service, if there is one.
pub open spec fn execute(
    program_id: Address,
    accounts: Seq<AccountView>,
    instruction: InstructionView,
) -> Result<(Seq<AccountView>, Option<ServiceCallView>), ProgramError> {
    match instruction {
        InstructionView::InitCounter => match init_counter_plan(program_id, accounts) {
            Ok(call) => Ok((accounts, call)),
            Err(error) => Err(error),
        },
        InstructionView::IncreaseCounter { increase_by } => match increase_counter_result(
            program_id,
            accounts,
            increase_by,
        ) {
            Ok(next) => Ok((next, None)),
            Err(error) => Err(error),
        },
        InstructionView::Delegate => keeping(accounts, delegation_plan(accounts)),
        InstructionView::CommitAndUndelegate => keeping(
            accounts,
            commit_and_undelegate_plan(accounts),
        ),
        InstructionView::Commit => keeping(accounts, commit_plan(accounts)),
        InstructionView::Undelegate { pda_seeds } => keeping(
            accounts,
            undelegate_plan(program_id, accounts, pda_seeds),
        ),
    }
}

/// What an invocation gives, from the raw instruction buffer.
pub open spec fn instruction_outcome(
    program_id: Address,
    accounts: Seq<AccountView>,
    instruction_data: Seq<u8>,
) -> Result<(Seq<AccountView>, Option<ServiceCallView>), ProgramError> {
    match decode_instruction(instruction_data) {
        Ok(instruction) => execute(program_id, accounts, instruction),
        Err(error) => Err(error),
    }
}

/// What is left to do once a service has answered a request. A failure of
/// the service fails the invocation. After an allocation the new counter
/// account, the second of the list, is set to zero; the other requests need
/// nothing more.
pub open spec fn completion(
    accounts: Seq<AccountView>,
    call: ServiceCallView,
    outcome: ServiceOutcome,
) -> Result<Seq<AccountView>, ProgramError> {
    if outcome is Failed {
        Err(ProgramError::ExternalServiceFailure)
    } else {
        match call {
            ServiceCallView::CreateAccount { new_account, .. } => if accounts.len() < 2 {
                Err(ProgramError::MissingAccount)
            } else if accounts[1].key@ != new_account@ {
                Err(ProgramError::AddressMismatch)
            } else if Counter::decoding(accounts[1].data) is None {
                Err(ProgramError::CorruptState)
            } else {
                Ok(with_counter_data(accounts, Counter { count: 0 }.encoding()))
            },
            _ => Ok(accounts),
        }
    }
}

/// Re-derives the address of the counter account of `owner` and holds the
/// supplied address against it. On a match the bump of the derivation is
/// returned.
pub fn check_counter_account(program_id: &Address, owner: &Address, supplied: &Address) -> (r:
    Result<u8, ProgramError>)
    ensures
        match r {
            Ok(bump) => is_counter_account(*program_id, *owner, *supplied) && bump == counter_bump(
                *program_id,
                *owner,
            ),
            Err(error) => error == ProgramError::AddressMismatch && !is_counter_account(
                *program_id,
                *owner,
                *supplied,
            ),
        },
{
    match find_counter_address(program_id, owner) {
        Some((address, bump)) => {
            if address == *supplied {
                Ok(bump)
            } else {
                Err(ProgramError::AddressMismatch)
            }
        },
        None => Err(ProgramError::AddressMismatch),
    }
}

/// Replaces the data of the counter account, the second of the list.
fn store_counter_data(accounts: &mut Vec<Account>, data: Vec<u8>)
    requires
        old(accounts)@.len() >= 2,
    ensures
        views(final(accounts)@) == with_counter_data(views(old(accounts)@), data@),
        final(accounts)@.len() == old(accounts)@.len(),
{
    let updated = Account {
        key: accounts[1].key,
        lamports: accounts[1].lamports,
        data,
        is_signer: accounts[1].is_signer,
    };
    accounts.set(1, updated);
    assert(views(accounts@) =~= with_counter_data(views(old(accounts)@), data@));
}

/// `InitCounter`. The accounts are `[owner, counter, allocation service]`.
/// Nothing is changed here: where the counter account does not exist yet,
/// the request to allocate it is returned, and `complete_service_call` sets
/// the new record to zero. Where it exists, there is nothing to do.
pub fn process_init_counter(program_id: &Address, accounts: &Vec<Account>) -> (r: Result<
    Option<ServiceCall>,
    ProgramError,
>)
    ensures
        match r {
            Ok(call) => init_counter_plan(*program_id, views(accounts@)) == Ok::<
                Option<ServiceCallView>,
                ProgramError,
            >(call_view(call)),
            Err(error) => init_counter_plan(*program_id, views(accounts@)) == Err::<
                Option<ServiceCallView>,
                ProgramError,
            >(error),
        },
        accounts@.len() >= 3 && !is_counter_account(
            *program_id,
            accounts@[0].key,
            accounts@[1].key,
        ) ==> r == Err::<Option<ServiceCall>, ProgramError>(ProgramError::AddressMismatch),
{
    if accounts.len() < 3 {
        return Err(ProgramError::MissingAccount);
    }
    let owner = &accounts[0];
    let counter = &accounts[1];
    let bump: u8 = match check_counter_account(program_id, &owner.key, &counter.key) {
        Ok(bump) => bump,
        Err(error) => { return Err(error); },
    };
    if counter.lamports != 0 {
        return Ok(None);
    }
    Ok(
        Some(
            ServiceCall::CreateAccount {
                payer: owner.key,
                new_account: counter.key,
                system_program: accounts[2].key,
                space: Counter::USZIE as u64,
                owner: *program_id,
                signer_seeds: counter_signer_seed_list(&owner.key, bump),
            },
        ),
    )
}

/// `IncreaseCounter`. The accounts are `[owner, counter]`. The stored count
/// grows by `increase_by`; a sum out of range is an error and is never
/// wrapped. On an error no account is changed.
pub fn process_increase_counter(
    program_id: &Address,
    accounts: &mut Vec<Account>,
    increase_by: u64,
) -> (r: Result<(), ProgramError>)
    ensures
        match r {
            Ok(_) => increase_counter_result(*program_id, views(old(accounts)@), increase_by)
                == Ok::<Seq<AccountView>, ProgramError>(views(final(accounts)@)),
            Err(error) => increase_counter_result(*program_id, views(old(accounts)@), increase_by)
                == Err::<Seq<AccountView>, ProgramError>(error) && final(accounts)@ == old(
                accounts,
            )@,
        },
        final(accounts)@.len() == old(accounts)@.len(),
        old(accounts)@.len() >= 2 && !is_counter_account(
            *program_id,
            old(accounts)@[0].key,
            old(accounts)@[1].key,
        ) ==> r == Err::<(), ProgramError>(ProgramError::AddressMismatch),
{
    if accounts.len() < 2 {
        return Err(ProgramError::MissingAccount);
    }
    match check_counter_account(program_id, &accounts[0].key, &accounts[1].key) {
        Ok(_) => {},
        Err(error) => { return Err(error); },
    }
    let counter = match Counter::decode(accounts[1].data.as_slice()) {
        Ok(counter) => counter,
        Err(error) => { return Err(error); },
    };
    let count: u64 = match counter.count.checked_add(increase_by) {
        Some(count) => count,
        None => { return Err(ProgramError::ArithmeticOverflow); },
    };
    let data = Counter { count }.encode();
    store_counter_data(accounts, data);
    Ok(())
}

/// `Delegate`. The accounts are `[owner, counter, this program, buffer,
/// delegation record, delegation metadata, delegation program, allocation
/// service]`. The counter account goes to the delegation service with its
/// derivation seeds and the fixed hints; whether the owner may delegate it is
/// for the service to say.
pub fn process_delegation(_program_id: &Address, accounts: &Vec<Account>) -> (r: Result<
    ServiceCall,
    ProgramError,
>)
    ensures
        match r {
            Ok(call) => delegation_plan(views(accounts@)) == Ok::<ServiceCallView, ProgramError>(
                call@,
            ),
            Err(error) => delegation_plan(views(accounts@)) == Err::<ServiceCallView, ProgramError>(
                error,
            ),
        },
{
    if accounts.len() < 8 {
        return Err(ProgramError::MissingAccount);
    }
    let owner = &accounts[0];
    Ok(
        ServiceCall::Delegate {
            payer: owner.key,
            pda: accounts[1].key,
            owner_program: accounts[2].key,
            buffer: accounts[3].key,
            delegation_record: accounts[4].key,
            delegation_metadata: accounts[5].key,
            delegation_program: accounts[6].key,
            system_program: accounts[7].key,
            pda_seeds: counter_seed_list(&owner.key),
            config: DelegateConfig { commit_frequency_ms: COMMIT_FREQUENCY_MS, validator: None },
        },
    )
}

/// `Undelegate`. The accounts are `[delegated account, buffer, owner,
/// allocation service]`. The seeds are not checked here: the delegation
/// service holds them against the delegated account.
pub fn undelegate(program_id: &Address, accounts: &Vec<Account>, pda_seeds: Vec<Vec<u8>>) -> (r:
    Result<ServiceCall, ProgramError>)
    ensures
        match r {
            Ok(call) => undelegate_plan(*program_id, views(accounts@), pda_seeds.deep_view())
                == Ok::<ServiceCallView, ProgramError>(call@),
            Err(error) => undelegate_plan(*program_id, views(accounts@), pda_seeds.deep_view())
                == Err::<ServiceCallView, ProgramError>(error),
        },
{
    if accounts.len() < 4 {
        return Err(ProgramError::MissingAccount);
    }
    Ok(
        ServiceCall::Undelegate {
            delegated_account: accounts[0].key,
            owner_program: *program_id,
            buffer: accounts[1].key,
            payer: accounts[2].key,
            system_program: accounts[3].key,
            pda_seeds,
        },
    )
}

/// `CommitAndUndelegate`. The accounts are `[owner, counter, magic program,
/// magic context]`, and the owner has to have signed.
pub fn process_commit_and_undelegate(_program_id: &Address, accounts: &Vec<Account>) -> (r: Result<
    ServiceCall,
    ProgramError,
>)
    ensures
        match r {
            Ok(call) => commit_and_undelegate_plan(views(accounts@)) == Ok::<
                ServiceCallView,
                ProgramError,
            >(call@),
            Err(error) => commit_and_undelegate_plan(views(accounts@)) == Err::<
                ServiceCallView,
                ProgramError,
            >(error),
        },
{
    if accounts.len() < 4 {
        return Err(ProgramError::MissingAccount);
    }
    let owner = &accounts[0];
    if !owner.is_signer {
        return Err(ProgramError::MissingSignature);
    }
    let committed: Vec<Address> = vec![accounts[1].key];
    assert(committed@ =~= seq![accounts@[1].key]);
    Ok(
        ServiceCall::CommitAndUndelegate {
            payer: owner.key,
            accounts: committed,
            magic_context: accounts[3].key,
            magic_program: accounts[2].key,
        },
    )
}

/// `Commit`. The accounts are `[owner, counter, magic program, magic
/// context]`, and the owner has to have signed.
pub fn process_commit(_program_id: &Address, accounts: &Vec<Account>) -> (r: Result<
    ServiceCall,
    ProgramError,
>)
    ensures
        match r {
            Ok(call) => commit_plan(views(accounts@)) == Ok::<ServiceCallView, ProgramError>(call@),
            Err(error) => commit_plan(views(accounts@)) == Err::<ServiceCallView, ProgramError>(
                error,
            ),
        },
{
    if accounts.len() < 4 {
        return Err(ProgramError::MissingAccount);
    }
    let owner = &accounts[0];
    if !owner.is_signer {
        return Err(ProgramError::MissingSignature);
    }
    let committed: Vec<Address> = vec![accounts[1].key];
    assert(committed@ =~= seq![accounts@[1].key]);
    Ok(
        ServiceCall::Commit {
            payer: owner.key,
            accounts: committed,
            magic_context: accounts[3].key,
            magic_program: accounts[2].key,
        },
    )
}

/// Decodes an instruction and carries it out on the accounts that came with
/// it. On success the request for a service is returned, if the operation
/// needs one; on an error no account is changed.
pub fn process_instruction(
    program_id: &Address,
    accounts: &mut Vec<Account>,
    instruction_data: &[u8],
) -> (r: Result<Option<ServiceCall>, ProgramError>)
    ensures
        match r {
            Ok(call) => instruction_outcome(
                *program_id,
                views(old(accounts)@),
                instruction_data@,
            ) == Ok::<(Seq<AccountView>, Option<ServiceCallView>), ProgramError>(
                (views(final(accounts)@), call_view(call)),
            ),
            Err(error) => instruction_outcome(
                *program_id,
                views(old(accounts)@),
                instruction_data@,
            ) == Err::<(Seq<AccountView>, Option<ServiceCallView>), ProgramError>(error)
                && final(accounts)@ == old(accounts)@,
        },
        final(accounts)@.len() == old(accounts)@.len(),
        instruction_data@.len() < 8 ==> r == Err::<Option<ServiceCall>, ProgramError>(
            ProgramError::MalformedInput,
        ),
{
    let instruction = match ProgramInstruction::unpack(instruction_data) {
        Ok(instruction) => instruction,
        Err(error) => { return Err(error); },
    };
    match instruction {
        ProgramInstruction::InitCounter => process_init_counter(program_id, accounts),
        ProgramInstruction::IncreaseCounter { increase_by } => {
            match process_increase_counter(program_id, accounts, increase_by) {
                Ok(_) => Ok(None),
                Err(error) => Err(error),
            }
        },
        ProgramInstruction::Delegate => match process_delegation(program_id, accounts) {
            Ok(call) => Ok(Some(call)),
            Err(error) => Err(error),
        },
        ProgramInstruction::CommitAndUndelegate => {
            match process_commit_and_undelegate(program_id, accounts) {
                Ok(call) => Ok(Some(call)),
                Err(error) => Err(error),
            }
        },
        ProgramInstruction::Commit => match process_commit(program_id, accounts) {
            Ok(call) => Ok(Some(call)),
            Err(error) => Err(error),
        },
        ProgramInstruction::Undelegate { pda_seeds } => {
            match undelegate(program_id, accounts, pda_seeds) {
                Ok(call) => Ok(Some(call)),
                Err(error) => Err(error),
            }
        },
    }
}

/// Finishes an invocation once the service has answered the request that
/// `process_instruction` returned. `accounts` is the list as it is after the
/// service ran. On an error no account is changed.
pub fn complete_service_call(
    accounts: &mut Vec<Account>,
    call: &ServiceCall,
    outcome: ServiceOutcome,
) -> (r: Result<(), ProgramError>)
    ensures
        match r {
            Ok(_) => completion(views(old(accounts)@), call@, outcome) == Ok::<
                Seq<AccountView>,
                ProgramError,
            >(views(final(accounts)@)),
            Err(error) => completion(views(old(accounts)@), call@, outcome) == Err::<
                Seq<AccountView>,
                ProgramError,
            >(error) && final(accounts)@ == old(accounts)@,
        },
        final(accounts)@.len() == old(accounts)@.len(),
{
    match outcome {
        ServiceOutcome::Failed => { return Err(ProgramError::ExternalServiceFailure); },
        ServiceOutcome::Completed => {},
    }
    match call {
        ServiceCall::CreateAccount { new_account, .. } => {
            if accounts.len() < 2 {
                return Err(ProgramError::MissingAccount);
            }
            if accounts[1].key != *new_account {
                return Err(ProgramError::AddressMismatch);
            }
            match Counter::decode(accounts[1].data.as_slice()) {
                Ok(_) => {},
                Err(error) => { return Err(error); },
            }
            let data = Counter { count: 0 }.encode();
            store_counter_data(accounts, data);
            Ok(())
        },
        _ => Ok(()),
    }
}

} // verus!
