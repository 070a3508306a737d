//! Enter a player into an open season.
use crate::codec::{address_eq, Address};
use crate::error::{ProcessError, SenshiError};
use crate::pda::{
    spec_find_program_address, spec_system_program_id, spec_token_program_id, system_program_id,
    token_program_id,
};
use crate::processor::{
    answers, copy_data, read_u64_arg, spec_check_address, spec_u64_arg, verify_program_address,
    with_bump_seed, AccountInfo, AccountWrite, Invocation, InvocationView, Outcome, OutcomeView,
};
use crate::state::entry::{new_entry_account, spec_entry_seeds, Entry, ENTRY_SPACE};
use crate::state::season::{
    is_season_account, season_of, spec_season_seeds, spec_status_byte, with_season, Season,
    SeasonStatus,
};
use vstd::prelude::*;

verus! {

/// The rules of `EnterSeason`.
///
/// Accounts: `[season (w), entry (w), player (s/w), vote_account,
/// player_token (w), vault (w), token_program, system_program]`; data:
/// `epoch_start` (8).  A player may enter only an `Open` season, paying
/// through the season's own vault.  The entry fee moves from the player's
/// token account to the vault, the player's entry account is created at the
/// address derived from the season and the player, and the season counts one
/// more entry and adds the fee to its prize pool.  The checks come in this
/// order: the fee transfer is asked for before the entry's address is
/// checked, and the entry account creation before the counts are checked,
/// so a wrong entry address, or either count overflowing
/// (`ArithmeticError`), is the `failure` that follows the invocations made
/// up to that point.
pub open spec fn enter_season_rules(program_id: Address, accounts: Seq<AccountInfo>, data: Seq<u8>) -> Result<
    OutcomeView,
    ProcessError,
> {
    if accounts.len() != 8 {
        Err(ProcessError::NotEnoughAccountKeys)
    } else if !accounts[2].is_signer {
        Err(ProcessError::MissingRequiredSignature)
    } else if accounts[7].address@ != spec_system_program_id() {
        Err(ProcessError::IncorrectProgramId)
    } else if accounts[6].address@ != spec_token_program_id() {
        Err(ProcessError::IncorrectProgramId)
    } else if data.len() < 8 {
        Err(ProcessError::InvalidInstructionData)
    } else if !is_season_account(accounts[0].data@) {
        Err(ProcessError::InvalidAccountData)
    } else {
        let epoch_start = spec_u64_arg(data, 0);
        let sd = accounts[0].data@;
        let season = season_of(sd);
        let found = spec_find_program_address(
            spec_season_seeds(accounts[3].address@, epoch_start),
            program_id@,
        );
        match spec_check_address(found, accounts[0].address@) {
            Err(e) => Err(e),
            Ok(_) => {
                if season.status != spec_status_byte(SeasonStatus::Open) {
                    Err(ProcessError::Custom(SenshiError::SeasonNotOpen))
                } else if accounts[5].address@ != season.vault@ {
                    Err(ProcessError::InvalidAccountData)
                } else {
                    let transfer = InvocationView::TokenTransfer {
                        source: 4,
                        destination: 5,
                        authority: 2,
                        amount: season.entry_fee,
                        signer_seeds: seq![],
                    };
                    let seeds = spec_entry_seeds(accounts[0].address@, accounts[2].address@);
                    match spec_check_address(
                        spec_find_program_address(seeds, program_id@),
                        accounts[1].address@,
                    ) {
                        Err(e) => Ok(
                            OutcomeView { invocations: seq![transfer], writes: seq![], failure: Some(e) },
                        ),
                        Ok(bump) => {
                            let create = InvocationView::CreateAccount {
                                payer: 2,
                                account: 1,
                                space: ENTRY_SPACE as u64,
                                signer_seeds: seeds.push(seq![bump]),
                            };
                            if season.total_entries + 1 > u32::MAX || season.prize_pool
                                + season.entry_fee > u64::MAX {
                                Ok(
                                    OutcomeView {
                                        invocations: seq![transfer, create],
                                        writes: seq![],
                                        failure: Some(
                                            ProcessError::Custom(SenshiError::ArithmeticError),
                                        ),
                                    },
                                )
                            } else {
                                let entered = Season {
                                    total_entries: (season.total_entries + 1) as u32,
                                    prize_pool: (season.prize_pool + season.entry_fee) as u64,
                                    ..season
                                };
                                let entry = Entry {
                                    player: accounts[2].address,
                                    has_score: 0,
                                    score: 0,
                                    has_reward: 0,
                                    reward: 0,
                                    claimed: 0,
                                    bump,
                                };
                                Ok(
                                    OutcomeView {
                                        invocations: seq![transfer, create],
                                        writes: seq![
                                            (0usize, with_season(sd, entered)),
                                            (1usize, new_entry_account(entry)),
                                        ],
                                        failure: None,
                                    },
                                )
                            }
                        },
                    }
                }
            },
        }
    }
}

/// Processes `EnterSeason`.
pub fn process_enter_season(program_id: &Address, accounts: &[AccountInfo], data: &[u8]) -> (r:
    Result<Outcome, ProcessError>)
    ensures
        answers(r, enter_season_rules(*program_id, accounts@, data@)),
{
    if accounts.len() != 8 {
        return Err(ProcessError::NotEnoughAccountKeys);
    }
    let season_view = &accounts[0];
    let entry_view = &accounts[1];
    let player_view = &accounts[2];
    let vote_account_view = &accounts[3];
    let vault_view = &accounts[5];
    let token_program_view = &accounts[6];
    let system_program_view = &accounts[7];
    if !player_view.is_signer {
        return Err(ProcessError::MissingRequiredSignature);
    }
    let system_program = system_program_id();
    if !address_eq(&system_program_view.address, &system_program) {
        return Err(ProcessError::IncorrectProgramId);
    }
    let token_program = token_program_id();
    if !address_eq(&token_program_view.address, &token_program) {
        return Err(ProcessError::IncorrectProgramId);
    }
    if data.len() < 8 {
        return Err(ProcessError::InvalidInstructionData);
    }
    let epoch_start = read_u64_arg(data, 0);
    let mut season = Season::load(season_view.data.as_slice())?;
    let found = Season::find_program_address(program_id, &vote_account_view.address, epoch_start);
    verify_program_address(found, &season_view.address)?;
    if season.status != SeasonStatus::Open.as_u8() {
        return Err(ProcessError::Custom(SenshiError::SeasonNotOpen));
    }
    if !address_eq(&vault_view.address, &season.vault) {
        return Err(ProcessError::InvalidAccountData);
    }
    let fee = season.entry_fee;
    // The entry fee moves first; the checks below answer after it.
    let no_seeds: Vec<Vec<u8>> = Vec::new();
    assert(no_seeds.deep_view() =~= Seq::<Seq<u8>>::empty());
    let transfer = Invocation::TokenTransfer {
        source: 4,
        destination: 5,
        authority: 2,
        amount: fee,
        signer_seeds: no_seeds,
    };
    let ghost transfer_view = transfer@;
    let mut invocations = vec![transfer];
    assert(invocations@.map_values(|i: Invocation| i@) =~= seq![transfer_view]);
    let found_entry = Entry::find_program_address(
        program_id,
        &season_view.address,
        &player_view.address,
    );
    let (entry_bump, entry_seeds) = match verify_program_address(found_entry, &entry_view.address) {
        Ok(found) => found,
        Err(e) => {
            let out = Outcome { invocations, writes: Vec::new(), failure: Some(e) };
            assert(out@.writes =~= Seq::<(usize, Seq<u8>)>::empty());
            return Ok(out);
        },
    };
    let ghost seeds_view = entry_seeds.deep_view();
    let entry_seeds = with_bump_seed(entry_seeds, entry_bump);
    let create = Invocation::CreateAccount {
        payer: 2,
        account: 1,
        space: ENTRY_SPACE as u64,
        signer_seeds: entry_seeds,
    };
    let ghost create_view = create@;
    invocations.push(create);
    assert(invocations@.map_values(|i: Invocation| i@) =~= seq![transfer_view, create_view]);
    if season.total_entries == u32::MAX || season.prize_pool > u64::MAX - fee {
        let out = Outcome {
            invocations,
            writes: Vec::new(),
            failure: Some(ProcessError::Custom(SenshiError::ArithmeticError)),
        };
        assert(out@.writes =~= Seq::<(usize, Seq<u8>)>::empty());
        return Ok(out);
    }
    season.total_entries = season.total_entries + 1;
    season.prize_pool = season.prize_pool + fee;
    let entry = Entry::new(player_view.address, entry_bump);
    let mut season_data = copy_data(season_view);
    season.store(&mut season_data);
    let entry_data = entry.to_account_data();
    let writes = vec![
        AccountWrite { account: 0, data: season_data },
        AccountWrite { account: 1, data: entry_data },
    ];
    let out = Outcome { invocations, writes, failure: None };
    assert(out@.writes =~= seq![
        (0usize, with_season(season_view.data@, season)),
        (1usize, new_entry_account(entry)),
    ]);
    Ok(out)
}

} // verus!
