//! Instruction decoding and one processor per instruction.
use crate::codec::{copy_range, Address};
use crate::error::ProcessError;
use crate::processor::{answers, AccountInfo, Outcome, OutcomeView};
use claim_reward::{claim_reward_rules, process_claim_reward};
use enter_season::{enter_season_rules, process_enter_season};
use initialize_config::{initialize_config_rules, process_initialize_config};
use initialize_season::{initialize_season_rules, process_initialize_season};
use lock_season::{lock_season_rules, process_lock_season};
use settle_season::{process_settle_season, settle_season_rules};
use submit_scores::{process_submit_scores, submit_scores_rules};
use vstd::prelude::*;

pub mod claim_reward;
pub mod enter_season;
pub mod initialize_config;
pub mod initialize_season;
pub mod lock_season;
pub mod settle_season;
pub mod submit_scores;

verus! {

/// The instructions of the program, by tag.
#[derive(Debug, Clone, Copy, PartialEq, Eq, Structural)]
pub enum SenshiInstruction {
    /// Tag 0: initialize config.
    InitializeConfig,
    /// Tag 1: initialize season.
    InitializeSeason,
    /// Tag 2: enter a season.
    EnterSeason,
    /// Tag 3: lock a season.
    LockSeason,
    /// Tag 4: submit a score for an entry.
    SubmitScores,
    /// Tag 5: settle a season.
    SettleSeason,
    /// Tag 6: claim a reward.
    ClaimReward,
}

/// The instruction that a tag byte selects, if any.
pub open spec fn spec_instruction_of_tag(tag: u8) -> Option<SenshiInstruction> {
    if tag == 0 {
        Some(SenshiInstruction::InitializeConfig)
    } else if tag == 1 {
        Some(SenshiInstruction::InitializeSeason)
    } else if tag == 2 {
        Some(SenshiInstruction::EnterSeason)
    } else if tag == 3 {
        Some(SenshiInstruction::LockSeason)
    } else if tag == 4 {
        Some(SenshiInstruction::SubmitScores)
    } else if tag == 5 {
        Some(SenshiInstruction::SettleSeason)
    } else if tag == 6 {
        Some(SenshiInstruction::ClaimReward)
    } else {
        None
    }
}

/// The tag byte of each instruction.
pub open spec fn spec_tag(i: SenshiInstruction) -> u8 {
    match i {
        SenshiInstruction::InitializeConfig => 0,
        SenshiInstruction::InitializeSeason => 1,
        SenshiInstruction::EnterSeason => 2,
        SenshiInstruction::LockSeason => 3,
        SenshiInstruction::SubmitScores => 4,
        SenshiInstruction::SettleSeason => 5,
        SenshiInstruction::ClaimReward => 6,
    }
}

/// What `unpack` answers for instruction data `input`: the instruction of
/// its first byte, or `InvalidInstructionData` when it is empty or the tag
/// is unknown.
pub open spec fn spec_unpack(input: Seq<u8>) -> Result<SenshiInstruction, ProcessError> {
    if input.len() == 0 {
        Err(ProcessError::InvalidInstructionData)
    } else {
        match spec_instruction_of_tag(input[0]) {
            Some(i) => Ok(i),
            None => Err(ProcessError::InvalidInstructionData),
        }
    }
}

impl SenshiInstruction {
    /// Decodes the instruction selected by the first byte of `input`.
    pub fn unpack(input: &[u8]) -> (r: Result<SenshiInstruction, ProcessError>)
        ensures
            r == spec_unpack(input@),
    {
        if input.len() == 0 {
            return Err(ProcessError::InvalidInstructionData);
        }
        let tag = input[0];
        if tag == 0 {
            Ok(SenshiInstruction::InitializeConfig)
        } else if tag == 1 {
            Ok(SenshiInstruction::InitializeSeason)
        } else if tag == 2 {
            Ok(SenshiInstruction::EnterSeason)
        } else if tag == 3 {
            Ok(SenshiInstruction::LockSeason)
        } else if tag == 4 {
            Ok(SenshiInstruction::SubmitScores)
        } else if tag == 5 {
            Ok(SenshiInstruction::SettleSeason)
        } else if tag == 6 {
            Ok(SenshiInstruction::ClaimReward)
        } else {
            Err(ProcessError::InvalidInstructionData)
        }
    }
}

/// The rules of the program: the instruction that the tag selects, applied
/// to the accounts and to the data after the tag.  Only `LockSeason` and
/// `SettleSeason` read `clock_epoch`, the current epoch.
pub open spec fn instruction_rules(
    program_id: Address,
    accounts: Seq<AccountInfo>,
    data: Seq<u8>,
    clock_epoch: u64,
) -> Result<OutcomeView, ProcessError> {
    match spec_unpack(data) {
        Err(e) => Err(e),
        Ok(instruction) => {
            let rest = data.subrange(1, data.len() as int);
            match instruction {
                SenshiInstruction::InitializeConfig => initialize_config_rules(program_id, accounts),
                SenshiInstruction::InitializeSeason => initialize_season_rules(
                    program_id,
                    accounts,
                    rest,
                ),
                SenshiInstruction::EnterSeason => enter_season_rules(program_id, accounts, rest),
                SenshiInstruction::LockSeason => lock_season_rules(
                    program_id,
                    accounts,
                    rest,
                    clock_epoch,
                ),
                SenshiInstruction::SubmitScores => submit_scores_rules(program_id, accounts, rest),
                SenshiInstruction::SettleSeason => settle_season_rules(
                    program_id,
                    accounts,
                    rest,
                    clock_epoch,
                ),
                SenshiInstruction::ClaimReward => claim_reward_rules(program_id, accounts, rest),
            }
        },
    }
}

/// Decodes the instruction in `data` and processes it, at epoch
/// `clock_epoch`.
pub fn process_instruction(
    program_id: &Address,
    accounts: &[AccountInfo],
    data: &[u8],
    clock_epoch: u64,
) -> (r: Result<Outcome, ProcessError>)
    ensures
        answers(r, instruction_rules(*program_id, accounts@, data@, clock_epoch)),
{
    let instruction = SenshiInstruction::unpack(data)?;
    let rest = copy_range(data, 1, data.len());
    let rest = rest.as_slice();
    match instruction {
        SenshiInstruction::InitializeConfig => process_initialize_config(program_id, accounts),
        SenshiInstruction::InitializeSeason => process_initialize_season(program_id, accounts, rest),
        SenshiInstruction::EnterSeason => process_enter_season(program_id, accounts, rest),
        SenshiInstruction::LockSeason => process_lock_season(program_id, accounts, rest, clock_epoch),
        SenshiInstruction::SubmitScores => process_submit_scores(program_id, accounts, rest),
        SenshiInstruction::SettleSeason => process_settle_season(
            program_id,
            accounts,
            rest,
            clock_epoch,
        ),
        SenshiInstruction::ClaimReward => process_claim_reward(program_id, accounts, rest),
    }
}

} // verus!
