//! Lock a season once its first epoch has begun, closing it to new entries.
use crate::codec::{address_eq, Address};
use crate::error::{ProcessError, SenshiError};
use crate::pda::spec_find_program_address;
use crate::processor::{
    answers, copy_data, read_u64_arg, spec_check_address, spec_u64_arg, verify_program_address,
    AccountInfo, AccountWrite, Outcome, OutcomeView,
};
use crate::state::season::{
    is_season_account, season_of, spec_season_seeds, spec_status_byte, with_season, Season,
    SeasonStatus,
};
use vstd::prelude::*;

verus! {

/// The rules of `LockSeason`.
///
/// Accounts: `[season (w), authority (s), vote_account]`; data:
/// `epoch_start` (8).  Only the season's authority may lock it, only while
/// it is `Open`, and only once `clock_epoch >= epoch_start`; the season then
/// becomes `Locked`.
pub open spec fn lock_season_rules(
    program_id: Address,
    accounts: Seq<AccountInfo>,
    data: Seq<u8>,
    clock_epoch: u64,
) -> Result<OutcomeView, ProcessError> {
    if accounts.len() != 3 {
        Err(ProcessError::NotEnoughAccountKeys)
    } else if !accounts[1].is_signer {
        Err(ProcessError::MissingRequiredSignature)
    } else if data.len() < 8 {
        Err(ProcessError::InvalidInstructionData)
    } else {
        let epoch_start = spec_u64_arg(data, 0);
        let found = spec_find_program_address(
            spec_season_seeds(accounts[2].address@, epoch_start),
            program_id@,
        );
        match spec_check_address(found, accounts[0].address@) {
            Err(e) => Err(e),
            Ok(_) => {
                let d = accounts[0].data@;
                let season = season_of(d);
                if !is_season_account(d) {
                    Err(ProcessError::InvalidAccountData)
                } else if accounts[1].address@ != season.authority@ {
                    Err(ProcessError::MissingRequiredSignature)
                } else if season.status != spec_status_byte(SeasonStatus::Open) {
                    Err(ProcessError::Custom(SenshiError::InvalidTransition))
                } else if clock_epoch < season.epoch_start {
                    Err(ProcessError::Custom(SenshiError::EpochNotReached))
                } else {
                    let locked = Season { status: spec_status_byte(SeasonStatus::Locked), ..season };
                    Ok(
                        OutcomeView {
                            invocations: seq![],
                            writes: seq![(0usize, with_season(d, locked))],
                            failure: None,
                        },
                    )
                }
            },
        }
    }
}

/// Processes `LockSeason` at epoch `clock_epoch`.
pub fn process_lock_season(
    program_id: &Address,
    accounts: &[AccountInfo],
    data: &[u8],
    clock_epoch: u64,
) -> (r: Result<Outcome, ProcessError>)
    ensures
        answers(r, lock_season_rules(*program_id, accounts@, data@, clock_epoch)),
{
    if accounts.len() != 3 {
        return Err(ProcessError::NotEnoughAccountKeys);
    }
    let season_view = &accounts[0];
    let authority_view = &accounts[1];
    let vote_account_view = &accounts[2];
    if !authority_view.is_signer {
        return Err(ProcessError::MissingRequiredSignature);
    }
    if data.len() < 8 {
        return Err(ProcessError::InvalidInstructionData);
    }
    let epoch_start = read_u64_arg(data, 0);
    let found = Season::find_program_address(program_id, &vote_account_view.address, epoch_start);
    verify_program_address(found, &season_view.address)?;
    let mut season = Season::load(season_view.data.as_slice())?;
    if !address_eq(&authority_view.address, &season.authority) {
        return Err(ProcessError::MissingRequiredSignature);
    }
    if season.status != SeasonStatus::Open.as_u8() {
        return Err(ProcessError::Custom(SenshiError::InvalidTransition));
    }
    if clock_epoch < season.epoch_start {
        return Err(ProcessError::Custom(SenshiError::EpochNotReached));
    }
    season.status = SeasonStatus::Locked.as_u8();
    let mut new_data = copy_data(season_view);
    season.store(&mut new_data);
    let writes = vec![AccountWrite { account: 0, data: new_data }];
    let out = Outcome { invocations: Vec::new(), writes, failure: None };
    assert(out@.writes =~= seq![(0usize, with_season(season_view.data@, season))]);
    assert(out@.invocations =~= Seq::<crate::processor::InvocationView>::empty());
    Ok(out)
}

} // verus!
