//! Claim a player's reward after the season has been settled.
use crate::codec::{address_eq, Address};
use crate::error::{ProcessError, SenshiError};
use crate::pda::{spec_find_program_address, spec_token_program_id, token_program_id};
use crate::processor::{
    answers, copy_data, read_u64_arg, spec_check_address, spec_u64_arg, verify_program_address,
    AccountInfo, AccountWrite, Invocation, InvocationView, Outcome, OutcomeView,
};
use crate::state::entry::{entry_of, is_entry_account, spec_entry_seeds, with_entry, Entry};
use crate::state::season::{
    is_season_account, season_of, spec_season_seeds, spec_status_byte, Season, SeasonStatus,
};
use vstd::bytes::spec_u64_to_le_bytes;
use vstd::prelude::*;

verus! {

/// Seed prefix of the vault authority: `b"vault"`.
pub open spec fn spec_vault_prefix() -> Seq<u8> {
    seq![118u8, 97, 117, 108, 116]
}

/// Signer seeds of a season's vault authority: `["vault", epoch_start as
/// little-endian bytes, [season bump]]`.
pub open spec fn spec_vault_signer_seeds(epoch_start: u64, bump: u8) -> Seq<Seq<u8>> {
    seq![spec_vault_prefix(), spec_u64_to_le_bytes(epoch_start), seq![bump]]
}

/// The signer seeds of the vault authority of the season starting at
/// `epoch_start` whose address has bump seed `bump`.
pub fn vault_signer_seeds(epoch_start: u64, bump: u8) -> (r: Vec<Vec<u8>>)
    ensures
        r.deep_view() == spec_vault_signer_seeds(epoch_start, bump),
{
    let prefix: Vec<u8> = vec![118u8, 97, 117, 108, 116];
    let le = vstd::bytes::u64_to_le_bytes(epoch_start);
    let b: Vec<u8> = vec![bump];
    assert(prefix@ =~= spec_vault_prefix());
    assert(b@ =~= seq![bump]);
    let r: Vec<Vec<u8>> = vec![prefix, le, b];
    assert(r.deep_view()[0] =~= spec_vault_prefix());
    assert(r.deep_view()[1] =~= spec_u64_to_le_bytes(epoch_start));
    assert(r.deep_view()[2] =~= seq![bump]);
    assert(r.deep_view() =~= spec_vault_signer_seeds(epoch_start, bump));
    r
}

/// The rules of `ClaimReward`.
///
/// Accounts: `[season, entry (w), player (s), vote_account, vault (w),
/// vault_authority, player_token (w), token_program]`; data: `epoch_start`
/// (8).  A player may claim only from a `Settled` season, through the
/// season's vault, with their own entry, once, and only when a reward was
/// assigned.  The entry is marked claimed and the reward moves from the
/// vault to the player's token account, signed by the vault authority.
pub open spec fn claim_reward_rules(program_id: Address, accounts: Seq<AccountInfo>, data: Seq<u8>) -> Result<
    OutcomeView,
    ProcessError,
> {
    if accounts.len() != 8 {
        Err(ProcessError::NotEnoughAccountKeys)
    } else if !accounts[2].is_signer {
        Err(ProcessError::MissingRequiredSignature)
    } else if accounts[7].address@ != spec_token_program_id() {
        Err(ProcessError::IncorrectProgramId)
    } else if data.len() < 8 {
        Err(ProcessError::InvalidInstructionData)
    } else {
        let epoch_start = spec_u64_arg(data, 0);
        let found = spec_find_program_address(
            spec_season_seeds(accounts[3].address@, epoch_start),
            program_id@,
        );
        match spec_check_address(found, accounts[0].address@) {
            Err(e) => Err(e),
            Ok(_) => {
                let sd = accounts[0].data@;
                let season = season_of(sd);
                if !is_season_account(sd) {
                    Err(ProcessError::InvalidAccountData)
                } else if season.status != spec_status_byte(SeasonStatus::Settled) {
                    Err(ProcessError::Custom(SenshiError::NotSettled))
                } else if accounts[4].address@ != season.vault@ {
                    Err(ProcessError::InvalidAccountData)
                } else {
                    let found_entry = spec_find_program_address(
                        spec_entry_seeds(accounts[0].address@, accounts[2].address@),
                        program_id@,
                    );
                    match spec_check_address(found_entry, accounts[1].address@) {
                        Err(e) => Err(e),
                        Ok(_) => {
                            let ed = accounts[1].data@;
                            let entry = entry_of(ed);
                            if !is_entry_account(ed) {
                                Err(ProcessError::InvalidAccountData)
                            } else if entry.claimed != 0 {
                                Err(ProcessError::Custom(SenshiError::AlreadyClaimed))
                            } else if entry.has_reward == 0 {
                                Err(ProcessError::Custom(SenshiError::NoReward))
                            } else {
                                Ok(
                                    OutcomeView {
                                        invocations: seq![
                                            InvocationView::TokenTransfer {
                                                source: 4,
                                                destination: 6,
                                                authority: 5,
                                                amount: entry.reward,
                                                signer_seeds: spec_vault_signer_seeds(
                                                    epoch_start,
                                                    season.bump,
                                                ),
                                            },
                                        ],
                                        writes: seq![
                                            (1usize, with_entry(ed, Entry { claimed: 1, ..entry })),
                                        ],
                                        failure: None,
                                    },
                                )
                            }
                        },
                    }
                }
            },
        }
    }
}

/// Processes `ClaimReward`.
pub fn process_claim_reward(program_id: &Address, accounts: &[AccountInfo], data: &[u8]) -> (r:
    Result<Outcome, ProcessError>)
    ensures
        answers(r, claim_reward_rules(*program_id, accounts@, data@)),
{
    if accounts.len() != 8 {
        return Err(ProcessError::NotEnoughAccountKeys);
    }
    let season_view = &accounts[0];
    let entry_view = &accounts[1];
    let player_view = &accounts[2];
    let vote_account_view = &accounts[3];
    let vault_view = &accounts[4];
    let token_program_view = &accounts[7];
    if !player_view.is_signer {
        return Err(ProcessError::MissingRequiredSignature);
    }
    let token_program = token_program_id();
    if !address_eq(&token_program_view.address, &token_program) {
        return Err(ProcessError::IncorrectProgramId);
    }
    if data.len() < 8 {
        return Err(ProcessError::InvalidInstructionData);
    }
    let epoch_start = read_u64_arg(data, 0);
    let found = Season::find_program_address(program_id, &vote_account_view.address, epoch_start);
    verify_program_address(found, &season_view.address)?;
    let season = Season::load(season_view.data.as_slice())?;
    if season.status != SeasonStatus::Settled.as_u8() {
        return Err(ProcessError::Custom(SenshiError::NotSettled));
    }
    if !address_eq(&vault_view.address, &season.vault) {
        return Err(ProcessError::InvalidAccountData);
    }
    let found_entry = Entry::find_program_address(
        program_id,
        &season_view.address,
        &player_view.address,
    );
    verify_program_address(found_entry, &entry_view.address)?;
    let mut entry = Entry::load(entry_view.data.as_slice())?;
    if entry.claimed != 0 {
        return Err(ProcessError::Custom(SenshiError::AlreadyClaimed));
    }
    if entry.has_reward == 0 {
        return Err(ProcessError::Custom(SenshiError::NoReward));
    }
    let reward = entry.reward;
    entry.claimed = 1;
    let mut entry_data = copy_data(entry_view);
    entry.store(&mut entry_data);
    let transfer = Invocation::TokenTransfer {
        source: 4,
        destination: 6,
        authority: 5,
        amount: reward,
        signer_seeds: vault_signer_seeds(epoch_start, season.bump),
    };
    let invocations = vec![transfer];
    let writes = vec![AccountWrite { account: 1, data: entry_data }];
    let out = Outcome { invocations, writes, failure: None };
    assert(out@.writes =~= seq![(1usize, with_entry(entry_view.data@, entry))]);
    assert(out@.invocations =~= seq![
        InvocationView::TokenTransfer {
            source: 4,
            destination: 6,
            authority: 5,
            amount: reward,
            signer_seeds: spec_vault_signer_seeds(epoch_start, season.bump),
        },
    ]);
    Ok(out)
}

} // verus!
