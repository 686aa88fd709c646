use rollup_counter::account::Account;
use rollup_counter::address::{find_counter_address, Address};
use rollup_counter::error::ProgramError;
use rollup_counter::processor::{
    check_counter_account, complete_service_call, process_commit, process_commit_and_undelegate,
    process_delegation, process_increase_counter, process_init_counter, process_instruction,
    undelegate,
};
use rollup_counter::service::{DelegateConfig, ServiceCall, ServiceOutcome, COMMIT_FREQUENCY_MS};
use rollup_counter::state::Counter;

const INIT: [u8; 8] = [0, 0, 0, 0, 0, 0, 0, 0];
const DELEGATE: [u8; 8] = [2, 0, 0, 0, 0, 0, 0, 0];
const COMMIT_AND_UNDELEGATE: [u8; 8] = [3, 0, 0, 0, 0, 0, 0, 0];
const COMMIT: [u8; 8] = [4, 0, 0, 0, 0, 0, 0, 0];
const UNDELEGATE: [u8; 8] = [0xC4, 0x1C, 0x29, 0xCE, 0x30, 0x25, 0x33, 0xA7];

fn address(fill: u8) -> Address {
    Address { bytes: [fill; 32] }
}

fn program() -> Address {
    address(9)
}

fn owner() -> Address {
    address(3)
}

fn counter_key() -> (Address, u8) {
    find_counter_address(&program(), &owner()).unwrap()
}

fn account(key: Address, lamports: u64, data: Vec<u8>, is_signer: bool) -> Account {
    Account { key, lamports, data, is_signer }
}

fn plain(fill: u8) -> Account {
    account(address(fill), 1, vec![], false)
}

/// `[owner, counter, allocation service]`, the counter not yet allocated.
fn fresh_accounts() -> Vec<Account> {
    vec![account(owner(), 1_000_000, vec![], true), account(counter_key().0, 0, vec![], false), plain(0)]
}

/// `[owner, counter, allocation service]`, the counter holding `count`.
fn live_accounts(count: u64) -> Vec<Account> {
    vec![
        account(owner(), 1_000_000, vec![], true),
        account(counter_key().0, 946_560, count.to_le_bytes().to_vec(), false),
        plain(0),
    ]
}

fn increase(amount: u64) -> Vec<u8> {
    let mut data = vec![1, 0, 0, 0, 0, 0, 0, 0];
    data.extend_from_slice(&amount.to_le_bytes());
    data
}

/// What the allocation service does with a `CreateAccount` request.
fn allocate(accounts: &mut [Account], call: &ServiceCall) {
    match call {
        ServiceCall::CreateAccount { new_account, space, .. } => {
            for entry in accounts.iter_mut() {
                if entry.key == *new_account {
                    entry.lamports = 946_560;
                    entry.data = vec![0; *space as usize];
                }
            }
        }
        _ => panic!("not an allocation"),
    }
}

#[test]
fn check_counter_account_gives_the_bump() {
    let (key, bump) = counter_key();
    assert_eq!(check_counter_account(&program(), &owner(), &key), Ok(bump));
}

#[test]
fn check_counter_account_rejects_other_addresses() {
    let (key, _) = counter_key();
    assert_eq!(
        check_counter_account(&program(), &owner(), &address(4)),
        Err(ProgramError::AddressMismatch)
    );
    assert_eq!(
        check_counter_account(&program(), &address(4), &key),
        Err(ProgramError::AddressMismatch)
    );
    assert_eq!(
        check_counter_account(&address(10), &owner(), &key),
        Err(ProgramError::AddressMismatch)
    );
}

#[test]
fn init_counter_asks_for_the_account_to_be_allocated() {
    let accounts = fresh_accounts();
    let (key, bump) = counter_key();
    assert_eq!(
        process_init_counter(&program(), &accounts),
        Ok(Some(ServiceCall::CreateAccount {
            payer: owner(),
            new_account: key,
            system_program: address(0),
            space: 8,
            owner: program(),
            signer_seeds: vec![b"counter_acc".to_vec(), vec![3u8; 32], vec![bump]],
        }))
    );
    assert_eq!(accounts, fresh_accounts());
}

#[test]
fn init_counter_needs_three_accounts() {
    let mut accounts = fresh_accounts();
    accounts.pop();
    assert_eq!(process_init_counter(&program(), &accounts), Err(ProgramError::MissingAccount));
    assert_eq!(process_init_counter(&program(), &vec![]), Err(ProgramError::MissingAccount));
}

#[test]
fn init_counter_rejects_a_foreign_counter_account() {
    let mut accounts = fresh_accounts();
    accounts[1].key = address(4);
    assert_eq!(process_init_counter(&program(), &accounts), Err(ProgramError::AddressMismatch));
    // the accounts in the wrong order
    let mut swapped = fresh_accounts();
    swapped.swap(0, 1);
    assert_eq!(process_init_counter(&program(), &swapped), Err(ProgramError::AddressMismatch));
}

#[test]
fn init_counter_on_an_existing_account_is_a_no_op() {
    let accounts = live_accounts(15);
    assert_eq!(process_init_counter(&program(), &accounts), Ok(None));
    assert_eq!(accounts, live_accounts(15));
}

#[test]
fn completing_an_allocation_stores_zero() {
    let mut accounts = fresh_accounts();
    let call = process_init_counter(&program(), &accounts).unwrap().unwrap();
    allocate(&mut accounts, &call);
    accounts[1].data = vec![9; 8];
    assert_eq!(complete_service_call(&mut accounts, &call, ServiceOutcome::Completed), Ok(()));
    assert_eq!(accounts[1].data, vec![0; 8]);
    assert_eq!(Counter::decode(&accounts[1].data), Ok(Counter { count: 0 }));
    assert_eq!(accounts[1].lamports, 946_560);
    assert_eq!(accounts[0], fresh_accounts()[0]);
    assert_eq!(accounts[2], fresh_accounts()[2]);
}

#[test]
fn init_counter_twice_is_init_counter_once() {
    let mut accounts = fresh_accounts();
    let call = process_instruction(&program(), &mut accounts, &INIT).unwrap().unwrap();
    allocate(&mut accounts, &call);
    assert_eq!(complete_service_call(&mut accounts, &call, ServiceOutcome::Completed), Ok(()));
    let once = accounts.clone();
    assert_eq!(process_instruction(&program(), &mut accounts, &INIT), Ok(None));
    assert_eq!(accounts, once);
    // also after the counter has moved on
    assert_eq!(process_instruction(&program(), &mut accounts, &increase(4)), Ok(None));
    assert_eq!(process_instruction(&program(), &mut accounts, &INIT), Ok(None));
    assert_eq!(Counter::decode(&accounts[1].data), Ok(Counter { count: 4 }));
}

#[test]
fn failed_allocation_fails_the_invocation() {
    let mut accounts = fresh_accounts();
    let call = process_init_counter(&program(), &accounts).unwrap().unwrap();
    assert_eq!(
        complete_service_call(&mut accounts, &call, ServiceOutcome::Failed),
        Err(ProgramError::ExternalServiceFailure)
    );
    assert_eq!(accounts, fresh_accounts());
}

#[test]
fn allocation_of_a_wrong_size_is_corrupt_state() {
    for len in [0usize, 7, 9] {
        let mut accounts = fresh_accounts();
        let call = process_init_counter(&program(), &accounts).unwrap().unwrap();
        accounts[1].lamports = 5;
        accounts[1].data = vec![0; len];
        let before = accounts.clone();
        assert_eq!(
            complete_service_call(&mut accounts, &call, ServiceOutcome::Completed),
            Err(ProgramError::CorruptState)
        );
        assert_eq!(accounts, before);
    }
}

#[test]
fn completing_an_allocation_checks_the_account_list() {
    let mut accounts = fresh_accounts();
    let call = process_init_counter(&program(), &accounts).unwrap().unwrap();
    let mut short = vec![accounts[0].clone()];
    assert_eq!(
        complete_service_call(&mut short, &call, ServiceOutcome::Completed),
        Err(ProgramError::MissingAccount)
    );
    accounts[1] = account(address(4), 5, vec![0; 8], false);
    assert_eq!(
        complete_service_call(&mut accounts, &call, ServiceOutcome::Completed),
        Err(ProgramError::AddressMismatch)
    );
}

#[test]
fn increase_counter_adds_to_the_stored_count() {
    let mut accounts = live_accounts(10);
    assert_eq!(process_increase_counter(&program(), &mut accounts, 5), Ok(()));
    assert_eq!(accounts[1].data, vec![15, 0, 0, 0, 0, 0, 0, 0]);
    let mut expected = live_accounts(15);
    assert_eq!(accounts, expected);
    assert_eq!(process_increase_counter(&program(), &mut accounts, 0), Ok(()));
    assert_eq!(accounts, expected);
    assert_eq!(process_increase_counter(&program(), &mut accounts, 241), Ok(()));
    expected[1].data = vec![0, 1, 0, 0, 0, 0, 0, 0];
    assert_eq!(accounts, expected);
}

#[test]
fn increase_counter_needs_two_accounts() {
    let mut accounts = live_accounts(10);
    accounts.truncate(2);
    assert_eq!(process_increase_counter(&program(), &mut accounts, 5), Ok(()));
    accounts.truncate(1);
    assert_eq!(
        process_increase_counter(&program(), &mut accounts, 5),
        Err(ProgramError::MissingAccount)
    );
    let mut none: Vec<Account> = vec![];
    assert_eq!(
        process_increase_counter(&program(), &mut none, 5),
        Err(ProgramError::MissingAccount)
    );
}

#[test]
fn increase_counter_rejects_a_foreign_counter_account() {
    // the account stores a valid record, but it is not the owner's counter
    let mut accounts = live_accounts(10);
    accounts[1].key = address(4);
    let before = accounts.clone();
    assert_eq!(
        process_increase_counter(&program(), &mut accounts, 5),
        Err(ProgramError::AddressMismatch)
    );
    assert_eq!(accounts, before);
    // the counter of another owner
    let mut accounts = live_accounts(10);
    accounts[0].key = address(4);
    assert_eq!(
        process_increase_counter(&program(), &mut accounts, 5),
        Err(ProgramError::AddressMismatch)
    );
    // the counter under another program
    let mut accounts = live_accounts(10);
    assert_eq!(
        process_increase_counter(&address(10), &mut accounts, 5),
        Err(ProgramError::AddressMismatch)
    );
    assert_eq!(accounts, live_accounts(10));
}

#[test]
fn increase_counter_on_unallocated_data_is_corrupt_state() {
    let mut accounts = fresh_accounts();
    assert_eq!(
        process_increase_counter(&program(), &mut accounts, 5),
        Err(ProgramError::CorruptState)
    );
    assert_eq!(accounts, fresh_accounts());
    let mut accounts = live_accounts(10);
    accounts[1].data.push(0);
    assert_eq!(
        process_increase_counter(&program(), &mut accounts, 5),
        Err(ProgramError::CorruptState)
    );
}

#[test]
fn increase_counter_never_wraps() {
    let mut accounts = live_accounts(u64::MAX - 5);
    assert_eq!(
        process_increase_counter(&program(), &mut accounts, 6),
        Err(ProgramError::ArithmeticOverflow)
    );
    assert_eq!(accounts, live_accounts(u64::MAX - 5));
    assert_eq!(process_increase_counter(&program(), &mut accounts, 5), Ok(()));
    assert_eq!(accounts, live_accounts(u64::MAX));
    assert_eq!(
        process_increase_counter(&program(), &mut accounts, 1),
        Err(ProgramError::ArithmeticOverflow)
    );
    assert_eq!(
        process_increase_counter(&program(), &mut accounts, u64::MAX),
        Err(ProgramError::ArithmeticOverflow)
    );
    assert_eq!(accounts, live_accounts(u64::MAX));
}

#[test]
fn increases_add_up() {
    for (start, a, b) in [(0u64, 10u64, 5u64), (7, 0, 0), (1 << 40, 1 << 41, 3), (u64::MAX - 9, 4, 5)] {
        let mut stepwise = live_accounts(start);
        assert_eq!(process_increase_counter(&program(), &mut stepwise, a), Ok(()));
        assert_eq!(process_increase_counter(&program(), &mut stepwise, b), Ok(()));
        let mut at_once = live_accounts(start);
        assert_eq!(process_increase_counter(&program(), &mut at_once, a + b), Ok(()));
        assert_eq!(stepwise, at_once);
        assert_eq!(stepwise, live_accounts(start + a + b));
    }
}

fn delegation_accounts(owner_signed: bool) -> Vec<Account> {
    vec![
        account(owner(), 1_000_000, vec![], owner_signed),
        account(counter_key().0, 946_560, vec![10, 0, 0, 0, 0, 0, 0, 0], false),
        plain(9),
        plain(21),
        plain(22),
        plain(23),
        plain(24),
        plain(0),
    ]
}

#[test]
fn delegation_hands_the_counter_to_the_service() {
    let accounts = delegation_accounts(true);
    assert_eq!(
        process_delegation(&program(), &accounts),
        Ok(ServiceCall::Delegate {
            payer: owner(),
            pda: counter_key().0,
            owner_program: address(9),
            buffer: address(21),
            delegation_record: address(22),
            delegation_metadata: address(23),
            delegation_program: address(24),
            system_program: address(0),
            pda_seeds: vec![b"counter_acc".to_vec(), vec![3u8; 32]],
            config: DelegateConfig { commit_frequency_ms: 30_000, validator: None },
        })
    );
    assert_eq!(COMMIT_FREQUENCY_MS, 30_000);
    assert_eq!(accounts, delegation_accounts(true));
}

#[test]
fn delegation_needs_eight_accounts() {
    let mut accounts = delegation_accounts(true);
    accounts.pop();
    assert_eq!(process_delegation(&program(), &accounts), Err(ProgramError::MissingAccount));
    assert_eq!(process_delegation(&program(), &vec![]), Err(ProgramError::MissingAccount));
}

#[test]
fn delegation_is_requested_whether_or_not_the_owner_signed() {
    let unsigned = process_delegation(&program(), &delegation_accounts(false));
    assert_eq!(unsigned, process_delegation(&program(), &delegation_accounts(true)));
    match unsigned {
        Ok(ServiceCall::Delegate { payer, pda, pda_seeds, config, .. }) => {
            assert_eq!(payer, owner());
            assert_eq!(pda, counter_key().0);
            assert_eq!(pda_seeds, vec![b"counter_acc".to_vec(), vec![3u8; 32]]);
            assert_eq!(config, DelegateConfig { commit_frequency_ms: 30_000, validator: None });
        }
        other => panic!("no delegation was requested: {:?}", other),
    }
}

#[test]
fn failed_delegation_fails_the_invocation() {
    for signed in [false, true] {
        let mut accounts = delegation_accounts(signed);
        let call = process_instruction(&program(), &mut accounts, &DELEGATE).unwrap().unwrap();
        assert_eq!(
            complete_service_call(&mut accounts, &call, ServiceOutcome::Failed),
            Err(ProgramError::ExternalServiceFailure)
        );
        assert_eq!(
            complete_service_call(&mut accounts, &call, ServiceOutcome::Completed),
            Ok(())
        );
        assert_eq!(accounts, delegation_accounts(signed));
    }
}

fn commit_accounts(owner_signed: bool) -> Vec<Account> {
    vec![
        account(owner(), 1_000_000, vec![], owner_signed),
        account(counter_key().0, 946_560, vec![15, 0, 0, 0, 0, 0, 0, 0], false),
        plain(31),
        plain(32),
    ]
}

#[test]
fn commit_asks_for_a_snapshot() {
    let accounts = commit_accounts(true);
    assert_eq!(
        process_commit(&program(), &accounts),
        Ok(ServiceCall::Commit {
            payer: owner(),
            accounts: vec![counter_key().0],
            magic_context: address(32),
            magic_program: address(31),
        })
    );
    assert_eq!(accounts, commit_accounts(true));
}

#[test]
fn commit_needs_the_owner_to_sign() {
    assert_eq!(
        process_commit(&program(), &commit_accounts(false)),
        Err(ProgramError::MissingSignature)
    );
}

#[test]
fn commit_needs_four_accounts() {
    let mut accounts = commit_accounts(true);
    accounts.pop();
    assert_eq!(process_commit(&program(), &accounts), Err(ProgramError::MissingAccount));
    // a short list is reported before a missing signature
    let mut unsigned = commit_accounts(false);
    unsigned.pop();
    assert_eq!(process_commit(&program(), &unsigned), Err(ProgramError::MissingAccount));
}

#[test]
fn commit_and_undelegate_asks_for_snapshot_and_release() {
    let accounts = commit_accounts(true);
    assert_eq!(
        process_commit_and_undelegate(&program(), &accounts),
        Ok(ServiceCall::CommitAndUndelegate {
            payer: owner(),
            accounts: vec![counter_key().0],
            magic_context: address(32),
            magic_program: address(31),
        })
    );
    assert_eq!(accounts, commit_accounts(true));
}

#[test]
fn commit_and_undelegate_needs_the_owner_to_sign() {
    assert_eq!(
        process_commit_and_undelegate(&program(), &commit_accounts(false)),
        Err(ProgramError::MissingSignature)
    );
}

#[test]
fn commit_and_undelegate_needs_four_accounts() {
    let mut accounts = commit_accounts(true);
    accounts.truncate(3);
    assert_eq!(
        process_commit_and_undelegate(&program(), &accounts),
        Err(ProgramError::MissingAccount)
    );
}

fn undelegate_accounts() -> Vec<Account> {
    vec![
        account(counter_key().0, 946_560, vec![15, 0, 0, 0, 0, 0, 0, 0], false),
        plain(21),
        account(owner(), 1_000_000, vec![], false),
        plain(0),
    ]
}

#[test]
fn undelegate_passes_the_seeds_on() {
    let accounts = undelegate_accounts();
    let seeds = vec![b"anything".to_vec(), vec![], vec![1, 2, 3]];
    assert_eq!(
        undelegate(&program(), &accounts, seeds.clone()),
        Ok(ServiceCall::Undelegate {
            delegated_account: counter_key().0,
            owner_program: program(),
            buffer: address(21),
            payer: owner(),
            system_program: address(0),
            pda_seeds: seeds,
        })
    );
    assert_eq!(accounts, undelegate_accounts());
}

#[test]
fn undelegate_needs_four_accounts() {
    let mut accounts = undelegate_accounts();
    accounts.pop();
    assert_eq!(
        undelegate(&program(), &accounts, vec![]),
        Err(ProgramError::MissingAccount)
    );
}

#[test]
fn requests_to_the_delegation_service_need_no_completion() {
    let calls = vec![
        process_delegation(&program(), &delegation_accounts(true)).unwrap(),
        process_commit(&program(), &commit_accounts(true)).unwrap(),
        process_commit_and_undelegate(&program(), &commit_accounts(true)).unwrap(),
        undelegate(&program(), &undelegate_accounts(), vec![]).unwrap(),
    ];
    for call in calls {
        let mut accounts = commit_accounts(true);
        assert_eq!(complete_service_call(&mut accounts, &call, ServiceOutcome::Completed), Ok(()));
        assert_eq!(accounts, commit_accounts(true));
        assert_eq!(
            complete_service_call(&mut accounts, &call, ServiceOutcome::Failed),
            Err(ProgramError::ExternalServiceFailure)
        );
        assert_eq!(accounts, commit_accounts(true));
    }
}

#[test]
fn dispatch_rejects_short_buffers_before_anything_else() {
    for len in 0..8usize {
        let mut accounts: Vec<Account> = vec![];
        assert_eq!(
            process_instruction(&program(), &mut accounts, &vec![1u8; len]),
            Err(ProgramError::MalformedInput)
        );
        let mut accounts = live_accounts(10);
        assert_eq!(
            process_instruction(&program(), &mut accounts, &UNDELEGATE[..len]),
            Err(ProgramError::MalformedInput)
        );
        assert_eq!(accounts, live_accounts(10));
    }
}

#[test]
fn dispatch_reports_decoding_errors() {
    let mut accounts = live_accounts(10);
    assert_eq!(
        process_instruction(&program(), &mut accounts, &[7, 0, 0, 0, 0, 0, 0, 0]),
        Err(ProgramError::UnknownOperation)
    );
    assert_eq!(
        process_instruction(&program(), &mut accounts, &[1, 0, 0, 0, 0, 0, 0, 0, 5]),
        Err(ProgramError::MalformedInput)
    );
    assert_eq!(
        process_instruction(&program(), &mut accounts, &UNDELEGATE),
        Err(ProgramError::MalformedInput)
    );
    assert_eq!(accounts, live_accounts(10));
}

#[test]
fn dispatch_reaches_each_operation() {
    let mut accounts = live_accounts(10);
    assert_eq!(process_instruction(&program(), &mut accounts, &INIT), Ok(None));
    assert_eq!(process_instruction(&program(), &mut accounts, &increase(5)), Ok(None));
    assert_eq!(accounts, live_accounts(15));

    let mut accounts = delegation_accounts(true);
    assert_eq!(
        process_instruction(&program(), &mut accounts, &DELEGATE),
        process_delegation(&program(), &delegation_accounts(true)).map(Some)
    );
    let mut accounts = commit_accounts(true);
    assert_eq!(
        process_instruction(&program(), &mut accounts, &COMMIT),
        process_commit(&program(), &commit_accounts(true)).map(Some)
    );
    assert_eq!(
        process_instruction(&program(), &mut accounts, &COMMIT_AND_UNDELEGATE),
        process_commit_and_undelegate(&program(), &commit_accounts(true)).map(Some)
    );
    let mut data = UNDELEGATE.to_vec();
    data.extend_from_slice(&[1, 0, 0, 0, 2, 0, 0, 0, 8, 9]);
    let mut accounts = undelegate_accounts();
    assert_eq!(
        process_instruction(&program(), &mut accounts, &data),
        undelegate(&program(), &undelegate_accounts(), vec![vec![8, 9]]).map(Some)
    );
    assert_eq!(accounts, undelegate_accounts());
}

#[test]
fn dispatch_reports_errors_of_the_operations() {
    let mut accounts = live_accounts(10);
    accounts[1].key = address(4);
    assert_eq!(
        process_instruction(&program(), &mut accounts, &INIT),
        Err(ProgramError::AddressMismatch)
    );
    assert_eq!(
        process_instruction(&program(), &mut accounts, &increase(5)),
        Err(ProgramError::AddressMismatch)
    );
    let mut accounts = live_accounts(u64::MAX);
    assert_eq!(
        process_instruction(&program(), &mut accounts, &increase(1)),
        Err(ProgramError::ArithmeticOverflow)
    );
    let mut accounts = commit_accounts(false);
    assert_eq!(
        process_instruction(&program(), &mut accounts, &COMMIT),
        Err(ProgramError::MissingSignature)
    );
    assert_eq!(
        process_instruction(&program(), &mut accounts, &DELEGATE),
        Err(ProgramError::MissingAccount)
    );
}

/// The counter on the base ledger and inside the rollup, with a delegation
/// service that moves it between the two.
struct Ledgers {
    base: Vec<u8>,
    rollup: Option<Vec<u8>>,
    delegated_with: Option<Vec<Vec<u8>>>,
}

impl Ledgers {
    fn perform(&mut self, call: &ServiceCall, accounts: &mut [Account]) {
        match call {
            ServiceCall::CreateAccount { .. } => {
                allocate(accounts, call);
                self.base = accounts[1].data.clone();
            }
            ServiceCall::Delegate { pda_seeds, config, .. } => {
                assert_eq!(config.commit_frequency_ms, 30_000);
                assert_eq!(config.validator, None);
                self.delegated_with = Some(pda_seeds.clone());
                self.rollup = Some(self.base.clone());
            }
            ServiceCall::Commit { .. } => {
                self.base = self.rollup.clone().unwrap();
            }
            ServiceCall::CommitAndUndelegate { .. } => {
                self.base = self.rollup.take().unwrap();
            }
            ServiceCall::Undelegate { .. } => {
                self.rollup = None;
            }
        }
    }

    /// Runs one instruction where the counter is authoritative.
    fn run(&mut self, accounts: &mut Vec<Account>, data: &[u8]) -> Result<(), ProgramError> {
        if accounts.len() > 1 {
            accounts[1].data = self.rollup.clone().unwrap_or(self.base.clone());
        }
        let call = process_instruction(&program(), accounts, data)?;
        match call {
            None => {}
            Some(call) => {
                self.perform(&call, accounts);
                complete_service_call(accounts, &call, ServiceOutcome::Completed)?;
            }
        }
        let stored = accounts[1].data.clone();
        match self.rollup.as_mut() {
            Some(rollup) => *rollup = stored,
            None => self.base = stored,
        }
        Ok(())
    }
}

#[test]
fn counter_migrates_to_the_rollup_and_back() {
    let mut ledgers = Ledgers { base: vec![], rollup: None, delegated_with: None };
    let (key, _) = counter_key();

    // InitCounter: the counter at the derived address becomes 0
    let mut accounts = fresh_accounts();
    assert_eq!(ledgers.run(&mut accounts, &INIT), Ok(()));
    assert_eq!(accounts[1].key, key);
    assert_eq!(Counter::decode(&ledgers.base), Ok(Counter { count: 0 }));

    // IncreaseCounter by 10 on the base ledger
    assert_eq!(ledgers.run(&mut accounts, &increase(10)), Ok(()));
    assert_eq!(Counter::decode(&ledgers.base), Ok(Counter { count: 10 }));

    // Delegate: the service is called with the seeds ["counter_acc", owner]
    let mut delegation = delegation_accounts(true);
    assert_eq!(ledgers.run(&mut delegation, &DELEGATE), Ok(()));
    assert_eq!(ledgers.delegated_with, Some(vec![b"counter_acc".to_vec(), owner().as_seed()]));
    assert_eq!(Counter::decode(ledgers.rollup.as_ref().unwrap()), Ok(Counter { count: 10 }));

    // IncreaseCounter by 5 inside the rollup
    assert_eq!(ledgers.run(&mut accounts, &increase(5)), Ok(()));
    assert_eq!(Counter::decode(ledgers.rollup.as_ref().unwrap()), Ok(Counter { count: 15 }));
    assert_eq!(Counter::decode(&ledgers.base), Ok(Counter { count: 10 }));

    // Commit: the base ledger catches up and the rollup stays in charge
    let mut commit = commit_accounts(true);
    assert_eq!(ledgers.run(&mut commit, &COMMIT), Ok(()));
    assert_eq!(Counter::decode(&ledgers.base), Ok(Counter { count: 15 }));
    assert!(ledgers.rollup.is_some());

    // CommitAndUndelegate: the base ledger holds 15 and the delegation ends
    assert_eq!(ledgers.run(&mut commit, &COMMIT_AND_UNDELEGATE), Ok(()));
    assert_eq!(Counter::decode(&ledgers.base), Ok(Counter { count: 15 }));
    assert_eq!(ledgers.rollup, None);

    // the counter goes on from there on the base ledger
    assert_eq!(ledgers.run(&mut accounts, &increase(1)), Ok(()));
    assert_eq!(ledgers.base, vec![16, 0, 0, 0, 0, 0, 0, 0]);
}
