//! Submit the score of one entry of a locked or scoring season.
use crate::codec::{address_eq, Address};
use crate::error::{ProcessError, SenshiError};
use crate::pda::spec_find_program_address;
use crate::processor::{
    answers, copy_data, read_u64_arg, spec_check_address, spec_u64_arg, verify_program_address,
    AccountInfo, AccountWrite, InvocationView, Outcome, OutcomeView,
};
use crate::state::entry::{entry_of, is_entry_account, spec_entry_seeds, with_entry, Entry};
use crate::state::season::{
    is_season_account, season_of, spec_season_seeds, spec_status_byte, with_season, Season,
    SeasonStatus,
};
use vstd::prelude::*;

verus! {

/// The rules of `SubmitScores`.
///
/// Accounts: `[season (w), authority (s), vote_account, entry (w)]`; data:
/// `epoch_start` (8) + `score` (8).  Only the season's authority may score,
/// only while the season is `Locked` or `Scoring`, and only an entry of this
/// season (the entry's address derives from the season and the entry's
/// player).  The season becomes `Scoring` and the entry records the score.
pub open spec fn submit_scores_rules(
    program_id: Address,
    accounts: Seq<AccountInfo>,
    data: Seq<u8>,
) -> Result<OutcomeView, ProcessError> {
    if accounts.len() != 4 {
        Err(ProcessError::NotEnoughAccountKeys)
    } else if !accounts[1].is_signer {
        Err(ProcessError::MissingRequiredSignature)
    } else if data.len() < 16 {
        Err(ProcessError::InvalidInstructionData)
    } else {
        let epoch_start = spec_u64_arg(data, 0);
        let score = spec_u64_arg(data, 1);
        let found = spec_find_program_address(
            spec_season_seeds(accounts[2].address@, epoch_start),
            program_id@,
        );
        match spec_check_address(found, accounts[0].address@) {
            Err(e) => Err(e),
            Ok(_) => {
                let sd = accounts[0].data@;
                let season = season_of(sd);
                if !is_season_account(sd) {
                    Err(ProcessError::InvalidAccountData)
                } else if accounts[1].address@ != season.authority@ {
                    Err(ProcessError::MissingRequiredSignature)
                } else if season.status != spec_status_byte(SeasonStatus::Locked) && season.status
                    != spec_status_byte(SeasonStatus::Scoring) {
                    Err(ProcessError::Custom(SenshiError::InvalidTransition))
                } else {
                    let ed = accounts[3].data@;
                    let entry = entry_of(ed);
                    if !is_entry_account(ed) {
                        Err(ProcessError::InvalidAccountData)
                    } else {
                        let found_entry = spec_find_program_address(
                            spec_entry_seeds(accounts[0].address@, entry.player@),
                            program_id@,
                        );
                        match spec_check_address(found_entry, accounts[3].address@) {
                            Err(e) => Err(e),
                            Ok(_) => {
                                let scoring = Season {
                                    status: spec_status_byte(SeasonStatus::Scoring),
                                    ..season
                                };
                                let scored = Entry { has_score: 1, score, ..entry };
                                Ok(
                                    OutcomeView {
                                        invocations: seq![],
                                        writes: seq![
                                            (0usize, with_season(sd, scoring)),
                                            (3usize, with_entry(ed, scored)),
                                        ],
                                        failure: None,
                                    },
                                )
                            },
                        }
                    }
                }
            },
        }
    }
}

/// Processes `SubmitScores`.
pub fn process_submit_scores(program_id: &Address, accounts: &[AccountInfo], data: &[u8]) -> (r:
    Result<Outcome, ProcessError>)
    ensures
        answers(r, submit_scores_rules(*program_id, accounts@, data@)),
{
    if accounts.len() != 4 {
        return Err(ProcessError::NotEnoughAccountKeys);
    }
    let season_view = &accounts[0];
    let authority_view = &accounts[1];
    let vote_account_view = &accounts[2];
    let entry_view = &accounts[3];
    if !authority_view.is_signer {
        return Err(ProcessError::MissingRequiredSignature);
    }
    if data.len() < 16 {
        return Err(ProcessError::InvalidInstructionData);
    }
    let epoch_start = read_u64_arg(data, 0);
    let score = read_u64_arg(data, 1);
    let found = Season::find_program_address(program_id, &vote_account_view.address, epoch_start);
    verify_program_address(found, &season_view.address)?;
    let mut season = Season::load(season_view.data.as_slice())?;
    if !address_eq(&authority_view.address, &season.authority) {
        return Err(ProcessError::MissingRequiredSignature);
    }
    if season.status != SeasonStatus::Locked.as_u8() && season.status
        != SeasonStatus::Scoring.as_u8() {
        return Err(ProcessError::Custom(SenshiError::InvalidTransition));
    }
    season.status = SeasonStatus::Scoring.as_u8();
    let mut entry = Entry::load(entry_view.data.as_slice())?;
    let found_entry = Entry::find_program_address(program_id, &season_view.address, &entry.player);
    verify_program_address(found_entry, &entry_view.address)?;
    entry.has_score = 1;
    entry.score = score;
    let mut season_data = copy_data(season_view);
    season.store(&mut season_data);
    let mut entry_data = copy_data(entry_view);
    entry.store(&mut entry_data);
    let writes = vec![
        AccountWrite { account: 0, data: season_data },
        AccountWrite { account: 3, data: entry_data },
    ];
    let out = Outcome { invocations: Vec::new(), writes, failure: None };
    assert(out@.writes =~= seq![
        (0usize, with_season(season_view.data@, season)),
        (3usize, with_entry(entry_view.data@, entry)),
    ]);
    assert(out@.invocations =~= Seq::<InvocationView>::empty());
    Ok(out)
}

} // verus!
