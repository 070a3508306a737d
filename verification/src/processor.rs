//! What a processor is given and what it answers: the accounts of an
//! instruction, and the account data to write and the cross-program
//! invocations to perform when the instruction succeeds.
use crate::codec::{address_eq, copy_range, read_u64_le, Address};
use crate::error::ProcessError;
use vstd::bytes::spec_u64_from_le_bytes;
use vstd::prelude::*;

verus! {

/// An account passed to an instruction, as the program sees it.
#[derive(Debug, PartialEq, Eq)]
pub struct AccountInfo {
    /// The account's address.
    pub address: Address,
    /// Whether the account signed the transaction.
    pub is_signer: bool,
    /// The account's data.
    pub data: Vec<u8>,
}

/// A cross-program invocation the program asks the runtime to perform.
/// Accounts are named by their index in the instruction's accounts.
#[derive(Debug, PartialEq, Eq)]
pub enum Invocation {
    /// System program: create `account`, funded by `payer` with the
    /// rent-exempt minimum for `space` bytes, owned by this program.
    CreateAccount { payer: usize, account: usize, space: u64, signer_seeds: Vec<Vec<u8>> },
    /// Token program: move `amount` tokens from `source` to `destination`,
    /// approved by `authority` (signing with `signer_seeds` when not empty).
    TokenTransfer {
        source: usize,
        destination: usize,
        authority: usize,
        amount: u64,
        signer_seeds: Vec<Vec<u8>>,
    },
}

/// New data for the account at index `account`.
#[derive(Debug, PartialEq, Eq)]
pub struct AccountWrite {
    /// Index of the account in the instruction's accounts.
    pub account: usize,
    /// The account's whole new data.
    pub data: Vec<u8>,
}

/// What an instruction does once its first checks pass: the invocations,
/// made in order, and then either the account writes (when `failure` is
/// `None`) or the error it ends with after those invocations succeeded.
#[derive(Debug, PartialEq, Eq)]
pub struct Outcome {
    /// Cross-program invocations, in the order they are made.
    pub invocations: Vec<Invocation>,
    /// Account data written by the program; empty when `failure` is set.
    pub writes: Vec<AccountWrite>,
    /// The error the instruction answers once the invocations are made.
    pub failure: Option<ProcessError>,
}

/// The mathematical value of an `Invocation`.
pub enum InvocationView {
    CreateAccount { payer: usize, account: usize, space: u64, signer_seeds: Seq<Seq<u8>> },
    TokenTransfer {
        source: usize,
        destination: usize,
        authority: usize,
        amount: u64,
        signer_seeds: Seq<Seq<u8>>,
    },
}

/// The mathematical value of an `Outcome`: writes are pairs of account
/// index and new data.
pub struct OutcomeView {
    pub invocations: Seq<InvocationView>,
    pub writes: Seq<(usize, Seq<u8>)>,
    pub failure: Option<ProcessError>,
}

impl View for Invocation {
    type V = InvocationView;

    open spec fn view(&self) -> InvocationView {
        match self {
            Invocation::CreateAccount { payer, account, space, signer_seeds } => {
                InvocationView::CreateAccount {
                    payer: *payer,
                    account: *account,
                    space: *space,
                    signer_seeds: signer_seeds.deep_view(),
                }
            },
            Invocation::TokenTransfer { source, destination, authority, amount, signer_seeds } => {
                InvocationView::TokenTransfer {
                    source: *source,
                    destination: *destination,
                    authority: *authority,
                    amount: *amount,
                    signer_seeds: signer_seeds.deep_view(),
                }
            },
        }
    }
}

impl View for Outcome {
    type V = OutcomeView;

    open spec fn view(&self) -> OutcomeView {
        OutcomeView {
            invocations: self.invocations@.map_values(|i: Invocation| i@),
            writes: self.writes@.map_values(|w: AccountWrite| (w.account, w.data@)),
            failure: self.failure,
        }
    }
}

/// Whether a processor's answer is the one its rules give: the same outcome
/// on success, the same error on failure.
pub open spec fn answers(r: Result<Outcome, ProcessError>, expected: Result<OutcomeView, ProcessError>) -> bool {
    match (r, expected) {
        (Ok(o), Ok(v)) => o@ == v,
        (Err(e), Err(f)) => e == f,
        _ => false,
    }
}

/// The `k`-th little-endian `u64` argument of instruction data.
pub open spec fn spec_u64_arg(data: Seq<u8>, k: int) -> u64 {
    spec_u64_from_le_bytes(data.subrange(8 * k, 8 * k + 8))
}

/// The `k`-th little-endian `u64` argument of `data`, which must hold it.
pub fn read_u64_arg(data: &[u8], k: usize) -> (v: u64)
    requires
        8 * k + 8 <= data@.len(),
    ensures
        v == spec_u64_arg(data@, k as int),
{
    assert(8 * k + 8 <= data.len());
    read_u64_le(data, 8 * k)
}

/// The answer of an address check: the bump seed when `found` is the
/// address `actual`, `InvalidSeeds` when no address was found, and
/// `InvalidAccountData` when another one was.
pub open spec fn spec_check_address(found: Option<(Seq<u8>, u8)>, actual: Seq<u8>) -> Result<
    u8,
    ProcessError,
> {
    match found {
        None => Err(ProcessError::InvalidSeeds),
        Some((address, bump)) => if address == actual {
            Ok(bump)
        } else {
            Err(ProcessError::InvalidAccountData)
        },
    }
}

/// Checks that a derived program address is the address of the account
/// given; answers with the bump seed and the seeds on success.
pub fn verify_program_address(found: Option<(Address, u8, Vec<Vec<u8>>)>, actual: &Address) -> (r:
    Result<(u8, Vec<Vec<u8>>), ProcessError>)
    ensures
        match found {
            None => r == Err::<(u8, Vec<Vec<u8>>), ProcessError>(ProcessError::InvalidSeeds),
            Some((address, bump, seeds)) => if address@ == actual@ {
                r matches Ok((b, s)) && b == bump && s.deep_view() == seeds.deep_view()
            } else {
                r == Err::<(u8, Vec<Vec<u8>>), ProcessError>(ProcessError::InvalidAccountData)
            },
        },
{
    match found {
        None => Err(ProcessError::InvalidSeeds),
        Some((address, bump, seeds)) => {
            if address_eq(&address, actual) {
                Ok((bump, seeds))
            } else {
                Err(ProcessError::InvalidAccountData)
            }
        },
    }
}

/// `seeds` followed by the one-byte seed `[bump]`: the signer seeds of a
/// program-derived address.
pub fn with_bump_seed(seeds: Vec<Vec<u8>>, bump: u8) -> (r: Vec<Vec<u8>>)
    ensures
        r.deep_view() == seeds.deep_view().push(seq![bump]),
{
    let mut r = seeds;
    let bump_seed: Vec<u8> = vec![bump];
    assert(bump_seed.deep_view() =~= seq![bump]);
    r.push(bump_seed);
    assert(r.deep_view() =~= seeds.deep_view().push(seq![bump])) by {
        assert forall|i: int| 0 <= i < seeds@.len() implies r.deep_view()[i]
            == seeds.deep_view()[i] by {
            assert(r@[i] == seeds@[i]);
        }
    }
    r
}

/// A copy of an account's data.
pub fn copy_data(account: &AccountInfo) -> (r: Vec<u8>)
    ensures
        r@ == account.data@,
{
    let r = copy_range(account.data.as_slice(), 0, account.data.len());
    assert(r@ =~= account.data@);
    r
}

} // verus!
