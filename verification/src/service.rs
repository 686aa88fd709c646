//! The requests the program hands to the services it relies on.
//!
//! The program never allocates an account and never moves one between the
//! base ledger and the rollup itself. It decides which service is asked for
//! what; the host performs the request and reports how it ended.

use crate::address::Address;
use vstd::prelude::*;

verus! {

/// How often the rollup is asked to commit a delegated account, in
/// milliseconds.
pub const COMMIT_FREQUENCY_MS: u32 = 30_000;

/// The hints that go with a delegation.
#[derive(Clone, Copy, Debug, PartialEq, Eq)]
pub struct DelegateConfig {
    /// The interval between commits that the rollup is asked to keep.
    pub commit_frequency_ms: u32,
    /// The validator that should take the account, if one is preferred.
    pub validator: Option<Address>,
}

/// A request to one of the outside services.
#[derive(Clone, Debug, PartialEq, Eq)]
pub enum ServiceCall {
    /// Asks the allocation service `system_program` for a new account of
    /// `space` bytes, paid for by `payer`, owned by `owner`, and signed for
    /// with `signer_seeds`. What the account costs is the service's affair.
    CreateAccount {
        payer: Address,
        new_account: Address,
        system_program: Address,
        space: u64,
        owner: Address,
        signer_seeds: Vec<Vec<u8>>,
    },
    /// Asks the delegation service to take authority over `pda`.
    Delegate {
        payer: Address,
        pda: Address,
        owner_program: Address,
        buffer: Address,
        delegation_record: Address,
        delegation_metadata: Address,
        delegation_program: Address,
        system_program: Address,
        pda_seeds: Vec<Vec<u8>>,
        config: DelegateConfig,
    },
    /// Asks the delegation service to copy `accounts` back to the base
    /// ledger; the rollup keeps authority.
    Commit { payer: Address, accounts: Vec<Address>, magic_context: Address, magic_program: Address },
    /// Asks the delegation service to copy `accounts` back to the base
    /// ledger and to release them.
    CommitAndUndelegate {
        payer: Address,
        accounts: Vec<Address>,
        magic_context: Address,
        magic_program: Address,
    },
    /// Asks the delegation service to release `delegated_account`, which the
    /// given seeds derive under `owner_program`.
    Undelegate {
        delegated_account: Address,
        owner_program: Address,
        buffer: Address,
        payer: Address,
        system_program: Address,
        pda_seeds: Vec<Vec<u8>>,
    },
}

/// What a request holds.
pub enum ServiceCallView {
    CreateAccount {
        payer: Address,
        new_account: Address,
        system_program: Address,
        space: u64,
        owner: Address,
        signer_seeds: Seq<Seq<u8>>,
    },
    Delegate {
        payer: Address,
        pda: Address,
        owner_program: Address,
        buffer: Address,
        delegation_record: Address,
        delegation_metadata: Address,
        delegation_program: Address,
        system_program: Address,
        pda_seeds: Seq<Seq<u8>>,
        config: DelegateConfig,
    },
    Commit { payer: Address, accounts: Seq<Address>, magic_context: Address, magic_program: Address },
    CommitAndUndelegate {
        payer: Address,
        accounts: Seq<Address>,
        magic_context: Address,
        magic_program: Address,
    },
    Undelegate {
        delegated_account: Address,
        owner_program: Address,
        buffer: Address,
        payer: Address,
        system_program: Address,
        pda_seeds: Seq<Seq<u8>>,
    },
}

impl View for ServiceCall {
    type V = ServiceCallView;

    open spec fn view(&self) -> ServiceCallView {
        match *self {
            ServiceCall::CreateAccount {
                payer,
                new_account,
                system_program,
                space,
                owner,
                signer_seeds,
            } => {
                ServiceCallView::CreateAccount {
                    payer,
                    new_account,
                    system_program,
                    space,
                    owner,
                    signer_seeds: signer_seeds.deep_view(),
                }
            },
            ServiceCall::Delegate {
                payer,
                pda,
                owner_program,
                buffer,
                delegation_record,
                delegation_metadata,
                delegation_program,
                system_program,
                pda_seeds,
                config,
            } => ServiceCallView::Delegate {
                payer,
                pda,
                owner_program,
                buffer,
                delegation_record,
                delegation_metadata,
                delegation_program,
                system_program,
                pda_seeds: pda_seeds.deep_view(),
                config,
            },
            ServiceCall::Commit { payer, accounts, magic_context, magic_program } => {
                ServiceCallView::Commit { payer, accounts: accounts@, magic_context, magic_program }
            },
            ServiceCall::CommitAndUndelegate { payer, accounts, magic_context, magic_program } => {
                ServiceCallView::CommitAndUndelegate {
                    payer,
                    accounts: accounts@,
                    magic_context,
                    magic_program,
                }
            },
            ServiceCall::Undelegate {
                delegated_account,
                owner_program,
                buffer,
                payer,
                system_program,
                pda_seeds,
            } => ServiceCallView::Undelegate {
                delegated_account,
                owner_program,
                buffer,
                payer,
                system_program,
                pda_seeds: pda_seeds.deep_view(),
            },
        }
    }
}

/// How a request to a service ended.
#[derive(Clone, Copy, Debug, PartialEq, Eq, Structural)]
pub enum ServiceOutcome {
    /// The service did what it was asked.
    Completed,
    /// The service reported a failure; why is its own affair.
    Failed,
}

} // verus!
