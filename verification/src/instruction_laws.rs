//! What each instruction does, stated over its inputs: exactly when it
//! succeeds, and what the accounts it writes then hold, in terms of the
//! instruction data and the accounts given.
use crate::codec::Address;
use crate::error::{ProcessError, SenshiError};
use crate::error::spec_error_code;
use crate::instruction::claim_reward::claim_reward_rules;
use crate::instruction::enter_season::enter_season_rules;
use crate::instruction::initialize_config::initialize_config_rules;
use crate::instruction::instruction_rules;
use crate::instruction::initialize_season::initialize_season_rules;
use crate::instruction::lock_season::lock_season_rules;
use crate::instruction::settle_season::settle_season_rules;
use crate::instruction::submit_scores::submit_scores_rules;
use crate::laws::{
    law_entry_read_after_write, law_new_entry_account, law_new_season_account,
    law_season_read_after_write,
};
use crate::pda::{spec_find_program_address, spec_system_program_id, spec_token_program_id};
use crate::processor::{AccountInfo, InvocationView};
use crate::state::entry::{entry_of, is_entry_account, spec_entry_seeds, Entry, ENTRY_SPACE};
use crate::state::season::{
    is_season_account, season_of, spec_season_seeds, spec_status_byte, Season, SeasonStatus,
    SEASON_SPACE,
};
use vstd::bytes::spec_u64_from_le_bytes;
use vstd::prelude::*;

verus! {

/// The little-endian `u64` stored at `data[off..off + 8]`.
pub open spec fn le_u64_at(data: Seq<u8>, off: int) -> u64 {
    spec_u64_from_le_bytes(data.subrange(off, off + 8))
}

/// Whether the program address derived from `seeds` for `program_id` is
/// `address`.
pub open spec fn derives(seeds: Seq<Seq<u8>>, program_id: Seq<u8>, address: Seq<u8>) -> bool {
    &&& spec_find_program_address(seeds, program_id) is Some
    &&& spec_find_program_address(seeds, program_id)->Some_0.0 == address
}

/// `InitializeSeason` succeeds exactly when it is given its five accounts,
/// the payer signs, the last account is the system program, the data holds
/// three `u64`s and the season account sits at the address derived from the
/// vote account and `epoch_start`.  It then creates that account (paid by
/// the payer, 238 bytes) holding an `Open` season with the payer as
/// authority, the given vault, `entry_fee`, `epoch_start` and `epoch_end`
/// read in full from the data, no entries and an empty prize pool.
pub proof fn law_initialize_season(program_id: Address, accounts: Seq<AccountInfo>, data: Seq<u8>)
    ensures
        initialize_season_rules(program_id, accounts, data) is Ok <==> {
            &&& accounts.len() == 5
            &&& accounts[1].is_signer
            &&& accounts[4].address@ == spec_system_program_id()
            &&& data.len() >= 24
            &&& derives(
                spec_season_seeds(accounts[2].address@, le_u64_at(data, 8)),
                program_id@,
                accounts[0].address@,
            )
        },
        initialize_season_rules(program_id, accounts, data) is Ok ==> {
            let o = initialize_season_rules(program_id, accounts, data)->Ok_0;
            let s = season_of(o.writes[0].1);
            &&& o.failure is None
            &&& o.invocations.len() == 1
            &&& o.invocations[0] matches InvocationView::CreateAccount {
                payer,
                account,
                space,
                ..
            } && payer == 1 && account == 0 && space == SEASON_SPACE
            &&& o.writes.len() == 1
            &&& o.writes[0].0 == 0
            &&& is_season_account(o.writes[0].1)
            &&& s.authority == accounts[1].address
            &&& s.vault == accounts[3].address
            &&& s.entry_fee == le_u64_at(data, 0)
            &&& s.epoch_start == le_u64_at(data, 8)
            &&& s.epoch_end == le_u64_at(data, 16)
            &&& s.prize_pool == 0
            &&& s.total_entries == 0
            &&& s.status == spec_status_byte(SeasonStatus::Open)
        },
{
    if initialize_season_rules(program_id, accounts, data) is Ok {
        let o = initialize_season_rules(program_id, accounts, data)->Ok_0;
        let bump = spec_find_program_address(
            spec_season_seeds(accounts[2].address@, le_u64_at(data, 8)),
            program_id@,
        )->Some_0.1;
        law_new_season_account(
            Season {
                authority: accounts[1].address,
                vault: accounts[3].address,
                epoch_start: le_u64_at(data, 8),
                epoch_end: le_u64_at(data, 16),
                prize_pool: 0,
                entry_fee: le_u64_at(data, 0),
                total_entries: 0,
                status: spec_status_byte(SeasonStatus::Open),
                bump,
            },
        );
    }
}

/// `EnterSeason` gets past its checks (and asks for the fee transfer)
/// exactly when it is given its eight accounts, the player signs, the last
/// two are the system and token programs, the data holds `epoch_start`,
/// the season account holds an `Open` season at the address derived from
/// the vote account and `epoch_start`, and the vault is the season's vault.
/// It then ends without a failure exactly when the entry account is at the
/// address derived from the season and the player and neither the entry
/// count (`u32`) nor the prize pool (`u64`) overflows; in that case the
/// player pays the entry fee into the vault, the entry account is created
/// holding a blank entry of the player, and the season counts one more
/// entry and holds the fee more in its pool, all else kept.
pub proof fn law_enter_season(program_id: Address, accounts: Seq<AccountInfo>, data: Seq<u8>)
    ensures
        enter_season_rules(program_id, accounts, data) is Ok <==> {
            let season = season_of(accounts[0].data@);
            &&& accounts.len() == 8
            &&& accounts[2].is_signer
            &&& accounts[7].address@ == spec_system_program_id()
            &&& accounts[6].address@ == spec_token_program_id()
            &&& data.len() >= 8
            &&& is_season_account(accounts[0].data@)
            &&& derives(
                spec_season_seeds(accounts[3].address@, le_u64_at(data, 0)),
                program_id@,
                accounts[0].address@,
            )
            &&& season.status == spec_status_byte(SeasonStatus::Open)
            &&& accounts[5].address@ == season.vault@
        },
        enter_season_rules(program_id, accounts, data) is Ok ==> {
            let o = enter_season_rules(program_id, accounts, data)->Ok_0;
            let season = season_of(accounts[0].data@);
            &&& o.invocations[0] == InvocationView::TokenTransfer {
                source: 4,
                destination: 5,
                authority: 2,
                amount: season.entry_fee,
                signer_seeds: seq![],
            }
            &&& (o.failure is None <==> {
                &&& derives(
                    spec_entry_seeds(accounts[0].address@, accounts[2].address@),
                    program_id@,
                    accounts[1].address@,
                )
                &&& season.total_entries + 1 <= u32::MAX
                &&& season.prize_pool + season.entry_fee <= u64::MAX
            })
            &&& (o.failure == Some(ProcessError::Custom(SenshiError::ArithmeticError)) ==> (
            season.total_entries + 1 > u32::MAX || season.prize_pool + season.entry_fee
                > u64::MAX))
        },
        ({
            let r = enter_season_rules(program_id, accounts, data);
            (r is Ok && r->Ok_0.failure is None) ==> {
                let o = r->Ok_0;
                let season = season_of(accounts[0].data@);
                let after = season_of(o.writes[0].1);
                let entry = entry_of(o.writes[1].1);
                &&& o.invocations.len() == 2
                &&& o.invocations[1] matches InvocationView::CreateAccount {
                    payer,
                    account,
                    space,
                    ..
                } && payer == 2 && account == 1 && space == ENTRY_SPACE
                &&& o.writes.len() == 2
                &&& o.writes[0].0 == 0
                &&& o.writes[1].0 == 1
                &&& is_season_account(o.writes[0].1)
                &&& after == Season {
                    total_entries: (season.total_entries + 1) as u32,
                    prize_pool: (season.prize_pool + season.entry_fee) as u64,
                    ..season
                }
                &&& after.total_entries == season.total_entries + 1
                &&& after.prize_pool == season.prize_pool + season.entry_fee
                &&& is_entry_account(o.writes[1].1)
                &&& entry.player == accounts[2].address
                &&& entry.has_score == 0 && entry.score == 0
                &&& entry.has_reward == 0 && entry.reward == 0
                &&& entry.claimed == 0
            }
        }),
{
    let r = enter_season_rules(program_id, accounts, data);
    if r is Ok && r->Ok_0.failure is None {
        let d = accounts[0].data@;
        let season = season_of(d);
        law_season_read_after_write(
            d,
            Season {
                total_entries: (season.total_entries + 1) as u32,
                prize_pool: (season.prize_pool + season.entry_fee) as u64,
                ..season
            },
        );
        let bump = spec_find_program_address(
            spec_entry_seeds(accounts[0].address@, accounts[2].address@),
            program_id@,
        )->Some_0.1;
        law_new_entry_account(
            Entry {
                player: accounts[2].address,
                has_score: 0,
                score: 0,
                has_reward: 0,
                reward: 0,
                claimed: 0,
                bump,
            },
        );
    }
}

/// `LockSeason` succeeds exactly when it is given its three accounts, the
/// authority signs, the data holds `epoch_start`, the season account holds
/// a season at the address derived from the vote account and `epoch_start`,
/// the signer is that season's authority, the season is `Open` and the
/// clock has reached the season's first epoch (`clock_epoch >=
/// epoch_start`).  The season then becomes `Locked`, all else kept.
pub proof fn law_lock_season(
    program_id: Address,
    accounts: Seq<AccountInfo>,
    data: Seq<u8>,
    clock_epoch: u64,
)
    ensures
        lock_season_rules(program_id, accounts, data, clock_epoch) is Ok <==> {
            let season = season_of(accounts[0].data@);
            &&& accounts.len() == 3
            &&& accounts[1].is_signer
            &&& data.len() >= 8
            &&& derives(
                spec_season_seeds(accounts[2].address@, le_u64_at(data, 0)),
                program_id@,
                accounts[0].address@,
            )
            &&& is_season_account(accounts[0].data@)
            &&& accounts[1].address@ == season.authority@
            &&& season.status == spec_status_byte(SeasonStatus::Open)
            &&& clock_epoch >= season.epoch_start
        },
        lock_season_rules(program_id, accounts, data, clock_epoch) is Ok ==> {
            let o = lock_season_rules(program_id, accounts, data, clock_epoch)->Ok_0;
            let season = season_of(accounts[0].data@);
            &&& o.failure is None
            &&& o.invocations.len() == 0
            &&& o.writes.len() == 1
            &&& o.writes[0].0 == 0
            &&& is_season_account(o.writes[0].1)
            &&& season_of(o.writes[0].1) == Season {
                status: spec_status_byte(SeasonStatus::Locked),
                ..season
            }
        },
{
    if lock_season_rules(program_id, accounts, data, clock_epoch) is Ok {
        let d = accounts[0].data@;
        law_season_read_after_write(
            d,
            Season { status: spec_status_byte(SeasonStatus::Locked), ..season_of(d) },
        );
    }
}

/// A lock that succeeds at some epoch succeeds at every later epoch, with
/// the same outcome.
pub proof fn law_lock_season_later_epoch(
    program_id: Address,
    accounts: Seq<AccountInfo>,
    data: Seq<u8>,
    clock_epoch: u64,
    later_epoch: u64,
)
    requires
        lock_season_rules(program_id, accounts, data, clock_epoch) is Ok,
        clock_epoch <= later_epoch,
    ensures
        lock_season_rules(program_id, accounts, data, later_epoch) == lock_season_rules(
            program_id,
            accounts,
            data,
            clock_epoch,
        ),
{
}

/// `SubmitScores` succeeds exactly when it is given its four accounts, the
/// authority signs, the data holds `epoch_start` and `score`, the season
/// account holds a season at the address derived from the vote account and
/// `epoch_start`, the signer is that season's authority, the season is
/// `Locked` or `Scoring`, and the entry account holds an entry at the
/// address derived from the season and the entry's player.  The season then
/// is `Scoring` (whether it was `Locked` or `Scoring`), all else kept, and
/// the entry records `score` read in full from the data, all else kept.
pub proof fn law_submit_scores(program_id: Address, accounts: Seq<AccountInfo>, data: Seq<u8>)
    ensures
        submit_scores_rules(program_id, accounts, data) is Ok <==> {
            let season = season_of(accounts[0].data@);
            &&& accounts.len() == 4
            &&& accounts[1].is_signer
            &&& data.len() >= 16
            &&& derives(
                spec_season_seeds(accounts[2].address@, le_u64_at(data, 0)),
                program_id@,
                accounts[0].address@,
            )
            &&& is_season_account(accounts[0].data@)
            &&& accounts[1].address@ == season.authority@
            &&& (season.status == spec_status_byte(SeasonStatus::Locked) || season.status
                == spec_status_byte(SeasonStatus::Scoring))
            &&& is_entry_account(accounts[3].data@)
            &&& derives(
                spec_entry_seeds(accounts[0].address@, entry_of(accounts[3].data@).player@),
                program_id@,
                accounts[3].address@,
            )
        },
        submit_scores_rules(program_id, accounts, data) is Ok ==> {
            let o = submit_scores_rules(program_id, accounts, data)->Ok_0;
            let season = season_of(accounts[0].data@);
            let entry = entry_of(accounts[3].data@);
            &&& o.failure is None
            &&& o.invocations.len() == 0
            &&& o.writes.len() == 2
            &&& o.writes[0].0 == 0
            &&& o.writes[1].0 == 3
            &&& is_season_account(o.writes[0].1)
            &&& season_of(o.writes[0].1) == Season {
                status: spec_status_byte(SeasonStatus::Scoring),
                ..season
            }
            &&& season_of(o.writes[0].1).status != spec_status_byte(SeasonStatus::Settled)
            &&& is_entry_account(o.writes[1].1)
            &&& entry_of(o.writes[1].1) == Entry {
                has_score: 1,
                score: le_u64_at(data, 8),
                ..entry
            }
        },
{
    if submit_scores_rules(program_id, accounts, data) is Ok {
        let d = accounts[0].data@;
        let ed = accounts[3].data@;
        law_season_read_after_write(
            d,
            Season { status: spec_status_byte(SeasonStatus::Scoring), ..season_of(d) },
        );
        law_entry_read_after_write(
            ed,
            Entry { has_score: 1, score: le_u64_at(data, 8), ..entry_of(ed) },
        );
    }
}

/// `SettleSeason` succeeds exactly when it is given its four accounts, the
/// authority signs, the data holds `epoch_start`, the season account holds
/// a season at the address derived from the vote account and `epoch_start`,
/// the signer is that season's authority, the vault is the season's vault,
/// the season is `Scoring`, the clock is past the season's last epoch
/// (`clock_epoch > epoch_end`) and the vault's data holds a token amount.
/// The season then is `Settled` with the vault's whole `u64` token amount
/// (bytes 64..72) as its prize pool, all else kept.
pub proof fn law_settle_season(
    program_id: Address,
    accounts: Seq<AccountInfo>,
    data: Seq<u8>,
    clock_epoch: u64,
)
    ensures
        settle_season_rules(program_id, accounts, data, clock_epoch) is Ok <==> {
            let season = season_of(accounts[0].data@);
            &&& accounts.len() == 4
            &&& accounts[1].is_signer
            &&& data.len() >= 8
            &&& derives(
                spec_season_seeds(accounts[2].address@, le_u64_at(data, 0)),
                program_id@,
                accounts[0].address@,
            )
            &&& is_season_account(accounts[0].data@)
            &&& accounts[1].address@ == season.authority@
            &&& accounts[3].address@ == season.vault@
            &&& season.status == spec_status_byte(SeasonStatus::Scoring)
            &&& clock_epoch > season.epoch_end
            &&& accounts[3].data@.len() >= 72
        },
        settle_season_rules(program_id, accounts, data, clock_epoch) is Ok ==> {
            let o = settle_season_rules(program_id, accounts, data, clock_epoch)->Ok_0;
            let season = season_of(accounts[0].data@);
            &&& o.failure is None
            &&& o.invocations.len() == 0
            &&& o.writes.len() == 1
            &&& o.writes[0].0 == 0
            &&& is_season_account(o.writes[0].1)
            &&& season_of(o.writes[0].1) == Season {
                prize_pool: le_u64_at(accounts[3].data@, 64),
                status: spec_status_byte(SeasonStatus::Settled),
                ..season
            }
        },
{
    if settle_season_rules(program_id, accounts, data, clock_epoch) is Ok {
        let d = accounts[0].data@;
        law_season_read_after_write(
            d,
            Season {
                prize_pool: le_u64_at(accounts[3].data@, 64),
                status: spec_status_byte(SeasonStatus::Settled),
                ..season_of(d)
            },
        );
    }
}

/// `InitializeConfig` succeeds exactly when it is given its three accounts,
/// the payer signs, the last account is the system program and the config
/// account sits at the address derived from `["config"]`.  It then creates
/// that account (paid by the payer, 40 bytes, signed with `["config",
/// [bump]]`) holding the discriminator `[1, 0, 0, 0, 0, 0, 0, 0]` followed
/// by the payer's address as the authority.
pub proof fn law_initialize_config(program_id: Address, accounts: Seq<AccountInfo>)
    ensures
        initialize_config_rules(program_id, accounts) is Ok <==> {
            &&& accounts.len() == 3
            &&& accounts[1].is_signer
            &&& accounts[2].address@ == spec_system_program_id()
            &&& derives(
                seq![seq![99u8, 111, 110, 102, 105, 103]],
                program_id@,
                accounts[0].address@,
            )
        },
        initialize_config_rules(program_id, accounts) is Ok ==> {
            let o = initialize_config_rules(program_id, accounts)->Ok_0;
            let bump = spec_find_program_address(
                seq![seq![99u8, 111, 110, 102, 105, 103]],
                program_id@,
            )->Some_0.1;
            &&& o.failure is None
            &&& o.invocations == seq![
                InvocationView::CreateAccount {
                    payer: 1,
                    account: 0,
                    space: 40,
                    signer_seeds: seq![seq![99u8, 111, 110, 102, 105, 103], seq![bump]],
                },
            ]
            &&& o.writes == seq![(0usize, seq![1u8, 0, 0, 0, 0, 0, 0, 0] + accounts[1].address@)]
        },
{
    assert(crate::state::config::spec_config_seeds() =~= seq![seq![99u8, 111, 110, 102, 105, 103]]);
    if initialize_config_rules(program_id, accounts) is Ok {
        let bump = spec_find_program_address(
            seq![seq![99u8, 111, 110, 102, 105, 103]],
            program_id@,
        )->Some_0.1;
        assert(crate::state::config::spec_config_seeds().push(seq![bump]) =~= seq![
            seq![99u8, 111, 110, 102, 105, 103],
            seq![bump],
        ]);
        assert(crate::state::spec_discriminator(crate::state::config::CONFIG_KIND) =~= seq![
            1u8,
            0,
            0,
            0,
            0,
            0,
            0,
            0,
        ]);
    }
}

/// `ClaimReward` succeeds exactly when it is given its eight accounts, the
/// player signs, the last account is the token program, the data holds
/// `epoch_start`, the season account holds a `Settled` season at the
/// address derived from the vote account and `epoch_start`, the vault is
/// the season's vault, and the entry account holds, at the address derived
/// from the season and the player, an entry that has a reward and has not
/// been claimed.  The entry's whole reward then moves from the vault to the
/// player's token account, approved by the vault authority signing with
/// `["vault", epoch_start as little-endian bytes, [season bump]]`, and the
/// entry is marked claimed, all else kept.
pub proof fn law_claim_reward(program_id: Address, accounts: Seq<AccountInfo>, data: Seq<u8>)
    ensures
        claim_reward_rules(program_id, accounts, data) is Ok <==> {
            let season = season_of(accounts[0].data@);
            let entry = entry_of(accounts[1].data@);
            &&& accounts.len() == 8
            &&& accounts[2].is_signer
            &&& accounts[7].address@ == spec_token_program_id()
            &&& data.len() >= 8
            &&& derives(
                spec_season_seeds(accounts[3].address@, le_u64_at(data, 0)),
                program_id@,
                accounts[0].address@,
            )
            &&& is_season_account(accounts[0].data@)
            &&& season.status == spec_status_byte(SeasonStatus::Settled)
            &&& accounts[4].address@ == season.vault@
            &&& derives(
                spec_entry_seeds(accounts[0].address@, accounts[2].address@),
                program_id@,
                accounts[1].address@,
            )
            &&& is_entry_account(accounts[1].data@)
            &&& entry.claimed == 0
            &&& entry.has_reward != 0
        },
        claim_reward_rules(program_id, accounts, data) is Ok ==> {
            let o = claim_reward_rules(program_id, accounts, data)->Ok_0;
            let season = season_of(accounts[0].data@);
            let entry = entry_of(accounts[1].data@);
            &&& o.failure is None
            &&& o.invocations == seq![
                InvocationView::TokenTransfer {
                    source: 4,
                    destination: 6,
                    authority: 5,
                    amount: entry.reward,
                    signer_seeds: seq![
                        seq![118u8, 97, 117, 108, 116],
                        vstd::bytes::spec_u64_to_le_bytes(le_u64_at(data, 0)),
                        seq![season.bump],
                    ],
                },
            ]
            &&& o.writes.len() == 1
            &&& o.writes[0].0 == 1
            &&& is_entry_account(o.writes[0].1)
            &&& entry_of(o.writes[0].1) == Entry { claimed: 1, ..entry }
        },
{
    if claim_reward_rules(program_id, accounts, data) is Ok {
        let ed = accounts[1].data@;
        law_entry_read_after_write(ed, Entry { claimed: 1, ..entry_of(ed) });
    }
}

/// The instruction is selected by the first byte of the data (tags 0 to 6
/// in the README's order) and given the bytes after it; any other first
/// byte, or no data at all, is refused with `InvalidInstructionData`.
pub proof fn law_dispatch(
    program_id: Address,
    accounts: Seq<AccountInfo>,
    rest: Seq<u8>,
    clock_epoch: u64,
    tag: u8,
)
    ensures
        instruction_rules(program_id, accounts, seq![0u8] + rest, clock_epoch)
            == initialize_config_rules(program_id, accounts),
        instruction_rules(program_id, accounts, seq![1u8] + rest, clock_epoch)
            == initialize_season_rules(program_id, accounts, rest),
        instruction_rules(program_id, accounts, seq![2u8] + rest, clock_epoch)
            == enter_season_rules(program_id, accounts, rest),
        instruction_rules(program_id, accounts, seq![3u8] + rest, clock_epoch)
            == lock_season_rules(program_id, accounts, rest, clock_epoch),
        instruction_rules(program_id, accounts, seq![4u8] + rest, clock_epoch)
            == submit_scores_rules(program_id, accounts, rest),
        instruction_rules(program_id, accounts, seq![5u8] + rest, clock_epoch)
            == settle_season_rules(program_id, accounts, rest, clock_epoch),
        instruction_rules(program_id, accounts, seq![6u8] + rest, clock_epoch)
            == claim_reward_rules(program_id, accounts, rest),
        tag > 6 ==> instruction_rules(program_id, accounts, seq![tag] + rest, clock_epoch)
            == Err::<crate::processor::OutcomeView, ProcessError>(
            ProcessError::InvalidInstructionData,
        ),
        instruction_rules(program_id, accounts, Seq::<u8>::empty(), clock_epoch) == Err::<
            crate::processor::OutcomeView,
            ProcessError,
        >(ProcessError::InvalidInstructionData),
{
    assert((seq![0u8] + rest).subrange(1, (seq![0u8] + rest).len() as int) =~= rest);
    assert((seq![1u8] + rest).subrange(1, (seq![1u8] + rest).len() as int) =~= rest);
    assert((seq![2u8] + rest).subrange(1, (seq![2u8] + rest).len() as int) =~= rest);
    assert((seq![3u8] + rest).subrange(1, (seq![3u8] + rest).len() as int) =~= rest);
    assert((seq![4u8] + rest).subrange(1, (seq![4u8] + rest).len() as int) =~= rest);
    assert((seq![5u8] + rest).subrange(1, (seq![5u8] + rest).len() as int) =~= rest);
    assert((seq![6u8] + rest).subrange(1, (seq![6u8] + rest).len() as int) =~= rest);
    assert((seq![tag] + rest)[0] == tag);
}

/// The README's error code table: `ArithmeticError` 0, `SeasonNotOpen` 1,
/// `InvalidTransition` 2, `EpochNotReached` 3, `EpochNotEnded` 4,
/// `NotSettled` 5, `AlreadyClaimed` 6, `NoReward` 7.
pub proof fn law_error_code_table()
    ensures
        spec_error_code(SenshiError::ArithmeticError) == 0,
        spec_error_code(SenshiError::SeasonNotOpen) == 1,
        spec_error_code(SenshiError::InvalidTransition) == 2,
        spec_error_code(SenshiError::EpochNotReached) == 3,
        spec_error_code(SenshiError::EpochNotEnded) == 4,
        spec_error_code(SenshiError::NotSettled) == 5,
        spec_error_code(SenshiError::AlreadyClaimed) == 6,
        spec_error_code(SenshiError::NoReward) == 7,
{
}

} // verus!
