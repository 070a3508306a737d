//! Settle a scored season once its epoch window has ended.
use crate::codec::{address_eq, read_u64_le, Address};
use crate::error::{ProcessError, SenshiError};
use crate::pda::spec_find_program_address;
use crate::processor::{
    answers, copy_data, read_u64_arg, spec_check_address, spec_u64_arg, verify_program_address,
    AccountInfo, AccountWrite, InvocationView, Outcome, OutcomeView,
};
use crate::state::season::{
    is_season_account, season_of, spec_season_seeds, spec_status_byte, with_season, Season,
    SeasonStatus,
};
use vstd::bytes::spec_u64_from_le_bytes;
use vstd::prelude::*;

verus! {

/// Where an SPL token account stores its token amount.
pub const TOKEN_AMOUNT_OFFSET: usize = 64;

/// The token amount stored in SPL token account data: the little-endian
/// `u64` at bytes 64..72.
pub open spec fn spec_token_amount(data: Seq<u8>) -> u64 {
    spec_u64_from_le_bytes(data.subrange(64, 72))
}

/// The token amount of SPL token account data, if it is long enough to
/// hold one.
pub fn token_account_amount(data: &[u8]) -> (r: Option<u64>)
    ensures
        r == (if data@.len() >= 72 {
            Some(spec_u64_from_le_bytes(data@.subrange(64, 72)))
        } else {
            None::<u64>
        }),
{
    if data.len() < 72 {
        None
    } else {
        Some(read_u64_le(data, TOKEN_AMOUNT_OFFSET))
    }
}

/// The rules of `SettleSeason`.
///
/// Accounts: `[season (w), authority (s), vote_account, vault]`; data:
/// `epoch_start` (8).  Only the season's authority may settle it, with the
/// season's own vault, only while it is `Scoring`, and only once
/// `clock_epoch > epoch_end`.  The prize pool becomes the vault's balance
/// (accrued yield included) and the season becomes `Settled`.
pub open spec fn settle_season_rules(
    program_id: Address,
    accounts: Seq<AccountInfo>,
    data: Seq<u8>,
    clock_epoch: u64,
) -> Result<OutcomeView, ProcessError> {
    if accounts.len() != 4 {
        Err(ProcessError::NotEnoughAccountKeys)
    } else if !accounts[1].is_signer {
        Err(ProcessError::MissingRequiredSignature)
    } else if data.len() < 8 {
        Err(ProcessError::InvalidInstructionData)
    } else {
        let epoch_start = spec_u64_arg(data, 0);
        let found = spec_find_program_address(
            spec_season_seeds(accounts[2].address@, epoch_start),
            program_id@,
        );
        match spec_check_address(found, accounts[0].address@) {
            Err(e) => Err(e),
            Ok(_) => {
                let d = accounts[0].data@;
                let season = season_of(d);
                let vault = accounts[3].data@;
                if !is_season_account(d) {
                    Err(ProcessError::InvalidAccountData)
                } else if accounts[1].address@ != season.authority@ {
                    Err(ProcessError::MissingRequiredSignature)
                } else if accounts[3].address@ != season.vault@ {
                    Err(ProcessError::InvalidAccountData)
                } else if season.status != spec_status_byte(SeasonStatus::Scoring) {
                    Err(ProcessError::Custom(SenshiError::InvalidTransition))
                } else if clock_epoch <= season.epoch_end {
                    Err(ProcessError::Custom(SenshiError::EpochNotEnded))
                } else if vault.len() < 72 {
                    Err(ProcessError::InvalidAccountData)
                } else {
                    let settled = Season {
                        prize_pool: spec_token_amount(vault),
                        status: spec_status_byte(SeasonStatus::Settled),
                        ..season
                    };
                    Ok(
                        OutcomeView {
                            invocations: seq![],
                            writes: seq![(0usize, with_season(d, settled))],
                            failure: None,
                        },
                    )
                }
            },
        }
    }
}

/// Processes `SettleSeason` at epoch `clock_epoch`.
pub fn process_settle_season(
    program_id: &Address,
    accounts: &[AccountInfo],
    data: &[u8],
    clock_epoch: u64,
) -> (r: Result<Outcome, ProcessError>)
    ensures
        answers(r, settle_season_rules(*program_id, accounts@, data@, clock_epoch)),
{
    if accounts.len() != 4 {
        return Err(ProcessError::NotEnoughAccountKeys);
    }
    let season_view = &accounts[0];
    let authority_view = &accounts[1];
    let vote_account_view = &accounts[2];
    let vault_view = &accounts[3];
    if !authority_view.is_signer {
        return Err(ProcessError::MissingRequiredSignature);
    }
    if data.len() < 8 {
        return Err(ProcessError::InvalidInstructionData);
    }
    let epoch_start = read_u64_arg(data, 0);
    let found = Season::find_program_address(program_id, &vote_account_view.address, epoch_start);
    verify_program_address(found, &season_view.address)?;
    let mut season = Season::load(season_view.data.as_slice())?;
    if !address_eq(&authority_view.address, &season.authority) {
        return Err(ProcessError::MissingRequiredSignature);
    }
    if !address_eq(&vault_view.address, &season.vault) {
        return Err(ProcessError::InvalidAccountData);
    }
    if season.status != SeasonStatus::Scoring.as_u8() {
        return Err(ProcessError::Custom(SenshiError::InvalidTransition));
    }
    if clock_epoch <= season.epoch_end {
        return Err(ProcessError::Custom(SenshiError::EpochNotEnded));
    }
    let vault_amount = match token_account_amount(vault_view.data.as_slice()) {
        Some(amount) => amount,
        None => {
            return Err(ProcessError::InvalidAccountData);
        },
    };
    season.prize_pool = vault_amount;
    season.status = SeasonStatus::Settled.as_u8();
    let mut new_data = copy_data(season_view);
    season.store(&mut new_data);
    let writes = vec![AccountWrite { account: 0, data: new_data }];
    let out = Outcome { invocations: Vec::new(), writes, failure: None };
    assert(out@.writes =~= seq![(0usize, with_season(season_view.data@, season))]);
    assert(out@.invocations =~= Seq::<InvocationView>::empty());
    Ok(out)
}

} // verus!
