//! Create the season account of a vote account and starting epoch.
use crate::codec::{address_eq, Address};
use crate::error::ProcessError;
use crate::pda::{spec_find_program_address, spec_system_program_id, system_program_id};
use crate::processor::{
    answers, read_u64_arg, spec_check_address, spec_u64_arg, verify_program_address, with_bump_seed, AccountInfo,
    AccountWrite, Invocation, InvocationView, Outcome, OutcomeView,
};
use crate::state::season::{
    new_season_account, spec_season_seeds, spec_status_byte, Season, SeasonStatus, SEASON_SPACE,
};
use vstd::prelude::*;

verus! {

/// The rules of `InitializeSeason`.
///
/// Accounts: `[season (w), payer (s/w), vote_account, vault,
/// system_program]`; data: `entry_fee` (8) + `epoch_start` (8) +
/// `epoch_end` (8).  The season account is created at the address derived
/// from the vote account and `epoch_start`, and holds an `Open` season with
/// the payer as authority, the given vault, fee and epochs, no entries and
/// an empty prize pool.
pub open spec fn initialize_season_rules(
    program_id: Address,
    accounts: Seq<AccountInfo>,
    data: Seq<u8>,
) -> Result<OutcomeView, ProcessError> {
    if accounts.len() != 5 {
        Err(ProcessError::NotEnoughAccountKeys)
    } else if !accounts[1].is_signer {
        Err(ProcessError::MissingRequiredSignature)
    } else if accounts[4].address@ != spec_system_program_id() {
        Err(ProcessError::IncorrectProgramId)
    } else if data.len() < 24 {
        Err(ProcessError::InvalidInstructionData)
    } else {
        let entry_fee = spec_u64_arg(data, 0);
        let epoch_start = spec_u64_arg(data, 1);
        let epoch_end = spec_u64_arg(data, 2);
        let seeds = spec_season_seeds(accounts[2].address@, epoch_start);
        match spec_check_address(
            spec_find_program_address(seeds, program_id@),
            accounts[0].address@,
        ) {
            Err(e) => Err(e),
            Ok(bump) => {
                let season = Season {
                    authority: accounts[1].address,
                    vault: accounts[3].address,
                    epoch_start,
                    epoch_end,
                    prize_pool: 0,
                    entry_fee,
                    total_entries: 0,
                    status: spec_status_byte(SeasonStatus::Open),
                    bump,
                };
                Ok(
                    OutcomeView {
                        invocations: seq![
                            InvocationView::CreateAccount {
                                payer: 1,
                                account: 0,
                                space: SEASON_SPACE as u64,
                                signer_seeds: seeds.push(seq![bump]),
                            },
                        ],
                        writes: seq![(0usize, new_season_account(season))],
                        failure: None,
                    },
                )
            },
        }
    }
}

/// Processes `InitializeSeason`.
pub fn process_initialize_season(program_id: &Address, accounts: &[AccountInfo], data: &[u8]) -> (r:
    Result<Outcome, ProcessError>)
    ensures
        answers(r, initialize_season_rules(*program_id, accounts@, data@)),
{
    if accounts.len() != 5 {
        return Err(ProcessError::NotEnoughAccountKeys);
    }
    let season_view = &accounts[0];
    let payer_view = &accounts[1];
    let vote_account_view = &accounts[2];
    let vault_view = &accounts[3];
    let system_program_view = &accounts[4];
    if !payer_view.is_signer {
        return Err(ProcessError::MissingRequiredSignature);
    }
    let system_program = system_program_id();
    if !address_eq(&system_program_view.address, &system_program) {
        return Err(ProcessError::IncorrectProgramId);
    }
    if data.len() < 24 {
        return Err(ProcessError::InvalidInstructionData);
    }
    let entry_fee = read_u64_arg(data, 0);
    let epoch_start = read_u64_arg(data, 1);
    let epoch_end = read_u64_arg(data, 2);
    let found = Season::find_program_address(program_id, &vote_account_view.address, epoch_start);
    let (season_bump, season_seeds) = verify_program_address(found, &season_view.address)?;
    let ghost seeds_view = season_seeds.deep_view();
    let season_seeds = with_bump_seed(season_seeds, season_bump);
    let season = Season::new(
        payer_view.address,
        vault_view.address,
        entry_fee,
        epoch_start,
        epoch_end,
        season_bump,
    );
    let season_data = season.to_account_data();
    let create = Invocation::CreateAccount {
        payer: 1,
        account: 0,
        space: SEASON_SPACE as u64,
        signer_seeds: season_seeds,
    };
    let invocations = vec![create];
    let writes = vec![AccountWrite { account: 0, data: season_data }];
    let out = Outcome { invocations, writes, failure: None };
    assert(out@.writes =~= seq![(0usize, new_season_account(season))]);
    assert(out@.invocations =~= seq![
        InvocationView::CreateAccount {
            payer: 1,
            account: 0,
            space: SEASON_SPACE as u64,
            signer_seeds: seeds_view.push(seq![season_bump]),
        },
    ]);
    Ok(out)
}

} // verus!
