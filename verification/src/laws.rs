//! Properties of the program as a whole, proved over the rules that the
//! processors follow.
use crate::codec::{address_of, lemma_address_of, Address};
use crate::error::{spec_error_code, ProcessError, SenshiError};
use crate::instruction::claim_reward::claim_reward_rules;
use crate::instruction::enter_season::enter_season_rules;
use crate::instruction::lock_season::lock_season_rules;
use crate::instruction::settle_season::{settle_season_rules, spec_token_amount};
use crate::instruction::{
    instruction_rules, spec_instruction_of_tag, spec_tag, spec_unpack, SenshiInstruction,
};
use crate::processor::{spec_check_address, AccountInfo, InvocationView, OutcomeView};
use crate::pda::spec_find_program_address;
use crate::state::entry::{
    entry_layout, entry_of, is_entry_account, lemma_entry_layout, lemma_entry_of,
    new_entry_account, spec_entry_seeds, with_entry, Entry, ENTRY_KIND, ENTRY_SPACE,
};
use crate::state::season::{
    is_season_account, lemma_season_layout, lemma_season_of, new_season_account, season_layout,
    season_of, spec_status_byte, with_season, Season, SeasonStatus, SEASON_KIND, SEASON_SPACE,
};
use crate::state::spec_discriminator;
use vstd::prelude::*;

verus! {

/// Reading a season account after writing a season into it gives back that
/// season, and the account stays (or stays not) a season account.
pub proof fn law_season_read_after_write(data: Seq<u8>, s: Season)
    requires
        data.len() == SEASON_SPACE,
    ensures
        season_of(with_season(data, s)) == s,
        is_season_account(with_season(data, s)) == is_season_account(data),
        with_season(data, s).len() == SEASON_SPACE,
{
    lemma_season_layout(s);
    let w = with_season(data, s);
    assert(w.subrange(8, 110) =~= season_layout(s));
    assert(w.subrange(0, 8) =~= data.subrange(0, 8));
    lemma_season_of(w, s);
}

/// Writing back the season read from a season account leaves its data
/// unchanged.
pub proof fn law_season_write_what_was_read(data: Seq<u8>)
    requires
        is_season_account(data),
    ensures
        with_season(data, season_of(data)) == data,
{
    let s = season_of(data);
    let t = data.subrange(8, 110);
    // Every 102 bytes are the layout of some season.
    let witness = season_from_layout_bytes(t);
    lemma_season_of(data, witness);
    assert(with_season(data, s) =~= data);
}

/// A season whose layout is the given 102 bytes.
proof fn season_from_layout_bytes(t: Seq<u8>) -> (s: Season)
    requires
        t.len() == 102,
    ensures
        season_layout(s) == t,
{
    vstd::bytes::lemma_auto_spec_u64_to_from_le_bytes();
    vstd::bytes::lemma_auto_spec_u32_to_from_le_bytes();
    lemma_address_of(t.subrange(0, 32));
    lemma_address_of(t.subrange(32, 64));
    let s = Season {
        authority: address_of(t.subrange(0, 32)),
        vault: address_of(t.subrange(32, 64)),
        epoch_start: vstd::bytes::spec_u64_from_le_bytes(t.subrange(64, 72)),
        epoch_end: vstd::bytes::spec_u64_from_le_bytes(t.subrange(72, 80)),
        prize_pool: vstd::bytes::spec_u64_from_le_bytes(t.subrange(80, 88)),
        entry_fee: vstd::bytes::spec_u64_from_le_bytes(t.subrange(88, 96)),
        total_entries: vstd::bytes::spec_u32_from_le_bytes(t.subrange(96, 100)),
        status: t[100],
        bump: t[101],
    };
    assert(season_layout(s) =~= t);
    s
}

/// A newly created season account is a season account holding the season
/// it was created with.
pub proof fn law_new_season_account(s: Season)
    ensures
        is_season_account(new_season_account(s)),
        season_of(new_season_account(s)) == s,
{
    lemma_season_layout(s);
    let d = new_season_account(s);
    assert(d.subrange(0, 8) =~= spec_discriminator(SEASON_KIND));
    assert(d.subrange(8, 110) =~= season_layout(s));
    lemma_season_of(d, s);
}

/// Reading an entry account after writing an entry into it gives back that
/// entry, and the account stays (or stays not) an entry account.
pub proof fn law_entry_read_after_write(data: Seq<u8>, e: Entry)
    requires
        data.len() == ENTRY_SPACE,
    ensures
        entry_of(with_entry(data, e)) == e,
        is_entry_account(with_entry(data, e)) == is_entry_account(data),
        with_entry(data, e).len() == ENTRY_SPACE,
{
    lemma_entry_layout(e);
    let w = with_entry(data, e);
    assert(w.subrange(8, 60) =~= entry_layout(e));
    assert(w.subrange(0, 8) =~= data.subrange(0, 8));
    lemma_entry_of(w, e);
}

/// Writing back the entry read from an entry account leaves its data
/// unchanged.
pub proof fn law_entry_write_what_was_read(data: Seq<u8>)
    requires
        is_entry_account(data),
    ensures
        with_entry(data, entry_of(data)) == data,
{
    let t = data.subrange(8, 60);
    vstd::bytes::lemma_auto_spec_u64_to_from_le_bytes();
    lemma_address_of(t.subrange(0, 32));
    let witness = Entry {
        player: address_of(t.subrange(0, 32)),
        has_score: t[32],
        score: vstd::bytes::spec_u64_from_le_bytes(t.subrange(33, 41)),
        has_reward: t[41],
        reward: vstd::bytes::spec_u64_from_le_bytes(t.subrange(42, 50)),
        claimed: t[50],
        bump: t[51],
    };
    assert(entry_layout(witness) =~= t);
    lemma_entry_of(data, witness);
    assert(with_entry(data, entry_of(data)) =~= data);
}

/// A newly created entry account is an entry account holding the entry it
/// was created with.
pub proof fn law_new_entry_account(e: Entry)
    ensures
        is_entry_account(new_entry_account(e)),
        entry_of(new_entry_account(e)) == e,
{
    lemma_entry_layout(e);
    let d = new_entry_account(e);
    assert(d.subrange(0, 8) =~= spec_discriminator(ENTRY_KIND));
    assert(d.subrange(8, 60) =~= entry_layout(e));
    lemma_entry_of(d, e);
}

/// Each custom error has its own code, and the codes are 0 to 7.
pub proof fn law_error_codes_distinct(a: SenshiError, b: SenshiError)
    ensures
        spec_error_code(a) < 8,
        a != b ==> spec_error_code(a) != spec_error_code(b),
{
}

/// Instruction data that starts with an instruction's tag decodes to that
/// instruction, whatever follows; each tag names at most one instruction.
pub proof fn law_unpack_tag(i: SenshiInstruction, rest: Seq<u8>)
    ensures
        spec_unpack(seq![spec_tag(i)] + rest) == Ok::<SenshiInstruction, ProcessError>(i),
        spec_instruction_of_tag(spec_tag(i)) == Some(i),
{
    assert((seq![spec_tag(i)] + rest)[0] == spec_tag(i));
}

/// One step of a season's life: both sides are season accounts, the status
/// stays or, unless it is `Settled`, moves to the next one; the authority,
/// vault, epochs, fee and bump are kept, and so are the reserved bytes.
pub open spec fn season_advances(before: Seq<u8>, after: Seq<u8>) -> bool {
    let b = season_of(before);
    let a = season_of(after);
    &&& is_season_account(before)
    &&& is_season_account(after)
    &&& (a.status == b.status || (b.status < spec_status_byte(SeasonStatus::Settled) && a.status
        == b.status + 1))
    &&& a.authority == b.authority
    &&& a.vault == b.vault
    &&& a.epoch_start == b.epoch_start
    &&& a.epoch_end == b.epoch_end
    &&& a.entry_fee == b.entry_fee
    &&& a.bump == b.bump
    &&& after.subrange(110, SEASON_SPACE as int) == before.subrange(110, SEASON_SPACE as int)
}

/// The prize pool of `s` is exactly the entry fees its players paid.
pub open spec fn pool_is_entry_fees(s: Season) -> bool {
    s.prize_pool == s.total_entries * s.entry_fee
}

/// Until a season is settled its prize pool stays the entry fees paid: if
/// that held of the season in `before` and it was not settled, it holds of
/// the season in `after` unless that one is settled.
pub open spec fn keeps_pool_until_settled(before: Seq<u8>, after: Seq<u8>) -> bool {
    let b = season_of(before);
    let a = season_of(after);
    (b.status != spec_status_byte(SeasonStatus::Settled) && pool_is_entry_fees(b)) ==> (a.status
        == spec_status_byte(SeasonStatus::Settled) || pool_is_entry_fees(a))
}

/// Whether the outcome `o` creates the account at index `i`.
pub open spec fn creates(o: OutcomeView, i: int) -> bool {
    exists|j: int|
        0 <= j < o.invocations.len() && (#[trigger] o.invocations[j] matches InvocationView::CreateAccount {
            account,
            ..
        } && account == i)
}

/// Whether the `k`-th write of `o` rewrites an existing season account: its
/// account holds a season before and the outcome does not create it.
pub open spec fn rewrites_season(accounts: Seq<AccountInfo>, o: OutcomeView, k: int) -> bool {
    let i = o.writes[k].0 as int;
    &&& 0 <= k < o.writes.len()
    &&& i < accounts.len()
    &&& is_season_account(accounts[i].data@)
    &&& !creates(o, i)
}

/// Every write of `o` over an existing season account is one step of that
/// season's life.
pub open spec fn writes_advance_seasons(accounts: Seq<AccountInfo>, o: OutcomeView) -> bool {
    forall|k: int|
        #[trigger] rewrites_season(accounts, o, k) ==> season_advances(
            accounts[o.writes[k].0 as int].data@,
            o.writes[k].1,
        )
}

/// Every write of `o` over an existing season account keeps its prize pool
/// equal to the entry fees paid until the season is settled.
pub open spec fn writes_keep_pool(accounts: Seq<AccountInfo>, o: OutcomeView) -> bool {
    forall|k: int|
        #[trigger] rewrites_season(accounts, o, k) ==> keeps_pool_until_settled(
            accounts[o.writes[k].0 as int].data@,
            o.writes[k].1,
        )
}

/// Entry accounts are not season accounts.
proof fn lemma_entry_is_not_season(d: Seq<u8>)
    requires
        is_entry_account(d),
    ensures
        !is_season_account(d),
{
}

/// Writing `s` over season data `d` is a step of its life when `s` keeps the
/// identity fields of the season in `d` and its status stays or moves on
/// from a season that is not settled.
proof fn lemma_step(d: Seq<u8>, s: Season)
    requires
        is_season_account(d),
        s.status == season_of(d).status || (season_of(d).status < spec_status_byte(
            SeasonStatus::Settled,
        ) && s.status == season_of(d).status + 1),
        s.authority == season_of(d).authority,
        s.vault == season_of(d).vault,
        s.epoch_start == season_of(d).epoch_start,
        s.epoch_end == season_of(d).epoch_end,
        s.entry_fee == season_of(d).entry_fee,
        s.bump == season_of(d).bump,
    ensures
        season_advances(d, with_season(d, s)),
        season_of(with_season(d, s)) == s,
{
    law_season_read_after_write(d, s);
    lemma_season_layout(s);
    assert(with_season(d, s).subrange(110, SEASON_SPACE as int) =~= d.subrange(
        110,
        SEASON_SPACE as int,
    ));
}

/// One more entry paying the fee keeps the pool equal to the fees paid.
proof fn lemma_one_more_fee(total: int, fee: int, pool: int)
    requires
        pool == total * fee,
    ensures
        pool + fee == (total + 1) * fee,
{
    assert((total + 1) * fee == total * fee + fee) by (nonlinear_arith);
}

/// What every instruction does to the season accounts it writes.
proof fn lemma_season_writes(
    program_id: Address,
    accounts: Seq<AccountInfo>,
    data: Seq<u8>,
    clock_epoch: u64,
)
    requires
        instruction_rules(program_id, accounts, data, clock_epoch) is Ok,
    ensures
        writes_advance_seasons(
            accounts,
            instruction_rules(program_id, accounts, data, clock_epoch)->Ok_0,
        ),
        writes_keep_pool(accounts, instruction_rules(program_id, accounts, data, clock_epoch)->Ok_0),
{
    let o = instruction_rules(program_id, accounts, data, clock_epoch)->Ok_0;
    let d = accounts[0].data@;
    let season = season_of(d);
    match spec_unpack(data)->Ok_0 {
        SenshiInstruction::InitializeConfig | SenshiInstruction::InitializeSeason => {
            assert(o.invocations[0] matches InvocationView::CreateAccount { account, .. }
                && account == 0);
            assert(creates(o, 0));
        },
        SenshiInstruction::EnterSeason => if o.failure is None {
            let s = Season {
                total_entries: (season.total_entries + 1) as u32,
                prize_pool: (season.prize_pool + season.entry_fee) as u64,
                ..season
            };
            lemma_step(d, s);
            if pool_is_entry_fees(season) {
                lemma_one_more_fee(
                    season.total_entries as int,
                    season.entry_fee as int,
                    season.prize_pool as int,
                );
            }
            assert(o.invocations[1] matches InvocationView::CreateAccount { account, .. }
                && account == 1);
            assert(creates(o, 1));
        } else {
            assert(o.writes.len() == 0);
        },
        SenshiInstruction::LockSeason => {
            lemma_step(d, Season { status: spec_status_byte(SeasonStatus::Locked), ..season });
        },
        SenshiInstruction::SubmitScores => {
            lemma_step(d, Season { status: spec_status_byte(SeasonStatus::Scoring), ..season });
            lemma_entry_is_not_season(accounts[3].data@);
        },
        SenshiInstruction::SettleSeason => {
            let s = Season {
                prize_pool: spec_token_amount(accounts[3].data@),
                status: spec_status_byte(SeasonStatus::Settled),
                ..season
            };
            lemma_step(d, s);
        },
        SenshiInstruction::ClaimReward => {
            lemma_entry_is_not_season(accounts[1].data@);
        },
    }
}

/// A season only moves forward through `Open -> Locked -> Scoring ->
/// Settled`, one step at a time, `Settled` is final, and its authority,
/// vault, epochs, entry fee and bump never change: every write that any
/// instruction makes over an existing season account (one it does not
/// create) is such a step.
pub proof fn law_season_lifecycle(
    program_id: Address,
    accounts: Seq<AccountInfo>,
    data: Seq<u8>,
    clock_epoch: u64,
)
    requires
        instruction_rules(program_id, accounts, data, clock_epoch) is Ok,
    ensures
        writes_advance_seasons(
            accounts,
            instruction_rules(program_id, accounts, data, clock_epoch)->Ok_0,
        ),
{
    lemma_season_writes(program_id, accounts, data, clock_epoch);
}

/// Until a season is settled its prize pool is exactly the entry fees its
/// players paid (entries times fee): every write that any instruction makes
/// over an existing season account keeps this, unless it settles the
/// season.
pub proof fn law_prize_pool_is_entry_fees(
    program_id: Address,
    accounts: Seq<AccountInfo>,
    data: Seq<u8>,
    clock_epoch: u64,
)
    requires
        instruction_rules(program_id, accounts, data, clock_epoch) is Ok,
    ensures
        writes_keep_pool(accounts, instruction_rules(program_id, accounts, data, clock_epoch)->Ok_0),
{
    lemma_season_writes(program_id, accounts, data, clock_epoch);
}

/// The data of the account at index `i` once `writes` are made: the last
/// write to it, or its data before.
pub open spec fn data_after(accounts: Seq<AccountInfo>, writes: Seq<(usize, Seq<u8>)>, i: int) -> Seq<
    u8,
>
    decreases writes.len(),
{
    if writes.len() == 0 {
        accounts[i].data@
    } else if writes.last().0 == i {
        writes.last().1
    } else {
        data_after(accounts, writes.drop_last(), i)
    }
}

/// `after` are the accounts `before` once the writes of `o` are made: the
/// same addresses and signers, with the written data.
pub open spec fn applied(before: Seq<AccountInfo>, o: OutcomeView, after: Seq<AccountInfo>) -> bool {
    &&& after.len() == before.len()
    &&& forall|i: int|
        0 <= i < before.len() ==> {
            &&& (#[trigger] after[i]).address == before[i].address
            &&& after[i].is_signer == before[i].is_signer
            &&& after[i].data@ == data_after(before, o.writes, i)
        }
}

/// A reward is paid once: once a claim succeeds, the same claim on the
/// accounts it leaves behind is refused with `AlreadyClaimed`.
pub proof fn law_claim_once(
    program_id: Address,
    before: Seq<AccountInfo>,
    data: Seq<u8>,
    after: Seq<AccountInfo>,
)
    requires
        claim_reward_rules(program_id, before, data) is Ok,
        applied(before, claim_reward_rules(program_id, before, data)->Ok_0, after),
    ensures
        claim_reward_rules(program_id, after, data) == Err::<OutcomeView, ProcessError>(
            ProcessError::Custom(SenshiError::AlreadyClaimed),
        ),
{
    reveal_with_fuel(data_after, 2);
    let o = claim_reward_rules(program_id, before, data)->Ok_0;
    let ed = before[1].data@;
    let claimed = Entry { claimed: 1, ..entry_of(ed) };
    assert(after[0].data@ == data_after(before, o.writes, 0));
    assert(after[1].data@ == data_after(before, o.writes, 1));
    assert(after[0].data@ == before[0].data@);
    assert(after[1].data@ == with_entry(ed, claimed));
    law_entry_read_after_write(ed, claimed);
}

/// A season is settled once: once a settlement succeeds, the same
/// settlement on the accounts it leaves behind is refused with
/// `InvalidTransition`, so the prize pool is fixed from then on.
pub proof fn law_settle_once(
    program_id: Address,
    before: Seq<AccountInfo>,
    data: Seq<u8>,
    clock_epoch: u64,
    after: Seq<AccountInfo>,
    later_epoch: u64,
)
    requires
        settle_season_rules(program_id, before, data, clock_epoch) is Ok,
        applied(before, settle_season_rules(program_id, before, data, clock_epoch)->Ok_0, after),
    ensures
        settle_season_rules(program_id, after, data, later_epoch) == Err::<OutcomeView, ProcessError>(
            ProcessError::Custom(SenshiError::InvalidTransition),
        ),
{
    reveal_with_fuel(data_after, 2);
    let o = settle_season_rules(program_id, before, data, clock_epoch)->Ok_0;
    let d = before[0].data@;
    let season = season_of(d);
    let settled = Season {
        prize_pool: spec_token_amount(before[3].data@),
        status: spec_status_byte(SeasonStatus::Settled),
        ..season
    };
    assert(after[0].data@ == data_after(before, o.writes, 0));
    assert(after[0].data@ == with_season(d, settled));
    law_season_read_after_write(d, settled);
}

/// A season is locked only by its authority, once its first epoch has
/// begun, and only while it is `Open`.
pub proof fn law_lock_waits_for_epoch_start(
    program_id: Address,
    accounts: Seq<AccountInfo>,
    data: Seq<u8>,
    clock_epoch: u64,
)
    requires
        lock_season_rules(program_id, accounts, data, clock_epoch) is Ok,
    ensures
        is_season_account(accounts[0].data@),
        clock_epoch >= season_of(accounts[0].data@).epoch_start,
        season_of(accounts[0].data@).status == spec_status_byte(SeasonStatus::Open),
        accounts[1].is_signer,
        accounts[1].address@ == season_of(accounts[0].data@).authority@,
{
}

/// A season is settled only by its authority, after its last epoch, from
/// `Scoring`, and its prize pool becomes the balance of its own vault.
pub proof fn law_settle_after_epoch_end(
    program_id: Address,
    accounts: Seq<AccountInfo>,
    data: Seq<u8>,
    clock_epoch: u64,
)
    requires
        settle_season_rules(program_id, accounts, data, clock_epoch) is Ok,
    ensures
        is_season_account(accounts[0].data@),
        clock_epoch > season_of(accounts[0].data@).epoch_end,
        season_of(accounts[0].data@).status == spec_status_byte(SeasonStatus::Scoring),
        accounts[1].is_signer,
        accounts[1].address@ == season_of(accounts[0].data@).authority@,
        accounts[3].address@ == season_of(accounts[0].data@).vault@,
        season_of(settle_season_rules(program_id, accounts, data, clock_epoch)->Ok_0.writes[0].1).prize_pool
            == spec_token_amount(accounts[3].data@),
{
    let d = accounts[0].data@;
    let settled = Season {
        prize_pool: spec_token_amount(accounts[3].data@),
        status: spec_status_byte(SeasonStatus::Settled),
        ..season_of(d)
    };
    law_season_read_after_write(d, settled);
}

/// Entering costs the entry fee, paid by the player into the season's
/// vault, and the prize pool grows by exactly that fee while the entry
/// count grows by one; the player's new entry has no score, no reward and
/// no claim.  Only an `Open` season takes entries.
pub proof fn law_entry_fee_joins_prize_pool(
    program_id: Address,
    accounts: Seq<AccountInfo>,
    data: Seq<u8>,
)
    requires
        enter_season_rules(program_id, accounts, data) is Ok,
        enter_season_rules(program_id, accounts, data)->Ok_0.failure is None,
    ensures
        ({
            let o = enter_season_rules(program_id, accounts, data)->Ok_0;
            let before = season_of(accounts[0].data@);
            let after = season_of(o.writes[0].1);
            let entry = entry_of(o.writes[1].1);
            &&& before.status == spec_status_byte(SeasonStatus::Open)
            &&& accounts[5].address@ == before.vault@
            &&& o.invocations[0] == InvocationView::TokenTransfer {
                source: 4,
                destination: 5,
                authority: 2,
                amount: before.entry_fee,
                signer_seeds: seq![],
            }
            &&& after.prize_pool == before.prize_pool + before.entry_fee
            &&& after.total_entries == before.total_entries + 1
            &&& is_entry_account(o.writes[1].1)
            &&& entry.player == accounts[2].address
            &&& entry.has_score == 0 && entry.has_reward == 0 && entry.claimed == 0
        }),
{
    let d = accounts[0].data@;
    let season = season_of(d);
    let entered = Season {
        total_entries: (season.total_entries + 1) as u32,
        prize_pool: (season.prize_pool + season.entry_fee) as u64,
        ..season
    };
    law_season_read_after_write(d, entered);
    let o = enter_season_rules(program_id, accounts, data)->Ok_0;
    let bump = spec_check_address(
        spec_find_program_address(
            spec_entry_seeds(accounts[0].address@, accounts[2].address@),
            program_id@,
        ),
        accounts[1].address@,
    )->Ok_0;
    law_new_entry_account(
        Entry {
            player: accounts[2].address,
            has_score: 0,
            score: 0,
            has_reward: 0,
            reward: 0,
            claimed: 0,
            bump,
        },
    );
}

/// A claim pays exactly the entry's reward from the season's vault to the
/// player, signed by the vault authority, and only from a `Settled` season
/// for an entry with a reward that was not yet claimed.
pub proof fn law_claim_pays_reward(program_id: Address, accounts: Seq<AccountInfo>, data: Seq<u8>)
    requires
        claim_reward_rules(program_id, accounts, data) is Ok,
    ensures
        ({
            let o = claim_reward_rules(program_id, accounts, data)->Ok_0;
            let season = season_of(accounts[0].data@);
            let entry = entry_of(accounts[1].data@);
            &&& season.status == spec_status_byte(SeasonStatus::Settled)
            &&& accounts[2].is_signer
            &&& accounts[4].address@ == season.vault@
            &&& entry.claimed == 0
            &&& entry.has_reward != 0
            &&& o.invocations.len() == 1
            &&& o.invocations[0] matches InvocationView::TokenTransfer {
                source,
                destination,
                amount,
                ..
            } && source == 4 && destination == 6 && amount == entry.reward
            &&& entry_of(o.writes[0].1).claimed == 1
        }),
{
    let ed = accounts[1].data@;
    law_entry_read_after_write(ed, Entry { claimed: 1, ..entry_of(ed) });
}

/// The README's season account layout: a season account is 238 bytes that
/// start with the discriminator `[2, 0, 0, 0, 0, 0, 0, 0]`, and its season
/// is read from these bytes: authority 8..40, vault 40..72, and the
/// little-endian `epoch_start` 72..80, `epoch_end` 80..88, `prize_pool`
/// 88..96, `entry_fee` 96..104, `total_entries` (`u32`) 104..108, then the
/// status byte 108 and the bump byte 109.
pub proof fn law_season_layout_offsets(data: Seq<u8>)
    ensures
        is_season_account(data) <==> (data.len() == 238 && data[0] == 2 && data[1] == 0
            && data[2] == 0 && data[3] == 0 && data[4] == 0 && data[5] == 0 && data[6] == 0
            && data[7] == 0),
        data.len() >= 110 ==> {
            let s = season_of(data);
            &&& s.authority@ == data.subrange(8, 40)
            &&& s.vault@ == data.subrange(40, 72)
            &&& s.epoch_start == vstd::bytes::spec_u64_from_le_bytes(data.subrange(72, 80))
            &&& s.epoch_end == vstd::bytes::spec_u64_from_le_bytes(data.subrange(80, 88))
            &&& s.prize_pool == vstd::bytes::spec_u64_from_le_bytes(data.subrange(88, 96))
            &&& s.entry_fee == vstd::bytes::spec_u64_from_le_bytes(data.subrange(96, 104))
            &&& s.total_entries == vstd::bytes::spec_u32_from_le_bytes(data.subrange(104, 108))
            &&& s.status == data[108]
            &&& s.bump == data[109]
        },
{
    if data.len() >= 8 {
        let h = data.subrange(0, 8);
        assert(h == spec_discriminator(SEASON_KIND) <==> (h[0] == 2 && h[1] == 0 && h[2] == 0
            && h[3] == 0 && h[4] == 0 && h[5] == 0 && h[6] == 0 && h[7] == 0)) by {
            if h[0] == 2 && h[1] == 0 && h[2] == 0 && h[3] == 0 && h[4] == 0 && h[5] == 0 && h[6]
                == 0 && h[7] == 0 {
                assert(h =~= spec_discriminator(SEASON_KIND));
            }
        }
    }
    if data.len() >= 110 {
        let t = data.subrange(8, 110);
        let w = season_from_layout_bytes(t);
        lemma_season_of(data, w);
        lemma_season_layout(w);
        assert(t[100] == data[108] && t[101] == data[109]);
        assert(t.subrange(0, 32) =~= data.subrange(8, 40));
        assert(t.subrange(32, 64) =~= data.subrange(40, 72));
        assert(t.subrange(64, 72) =~= data.subrange(72, 80));
        assert(t.subrange(72, 80) =~= data.subrange(80, 88));
        assert(t.subrange(80, 88) =~= data.subrange(88, 96));
        assert(t.subrange(88, 96) =~= data.subrange(96, 104));
        assert(t.subrange(96, 100) =~= data.subrange(104, 108));
    }
}

/// An entry whose layout is the given 52 bytes.
proof fn entry_from_layout_bytes(t: Seq<u8>) -> (e: Entry)
    requires
        t.len() == 52,
    ensures
        entry_layout(e) == t,
{
    vstd::bytes::lemma_auto_spec_u64_to_from_le_bytes();
    lemma_address_of(t.subrange(0, 32));
    let e = Entry {
        player: address_of(t.subrange(0, 32)),
        has_score: t[32],
        score: vstd::bytes::spec_u64_from_le_bytes(t.subrange(33, 41)),
        has_reward: t[41],
        reward: vstd::bytes::spec_u64_from_le_bytes(t.subrange(42, 50)),
        claimed: t[50],
        bump: t[51],
    };
    assert(entry_layout(e) =~= t);
    e
}

/// The README's entry account layout: an entry account is 124 bytes that
/// start with the discriminator `[3, 0, 0, 0, 0, 0, 0, 0]`, and its entry
/// is read from these bytes: player 8..40, `has_score` 40, little-endian
/// `score` 41..49, `has_reward` 49, little-endian `reward` 50..58,
/// `claimed` 58 and the bump 59.
pub proof fn law_entry_layout_offsets(data: Seq<u8>)
    ensures
        is_entry_account(data) <==> (data.len() == 124 && data[0] == 3 && data[1] == 0
            && data[2] == 0 && data[3] == 0 && data[4] == 0 && data[5] == 0 && data[6] == 0
            && data[7] == 0),
        data.len() >= 60 ==> {
            let e = entry_of(data);
            &&& e.player@ == data.subrange(8, 40)
            &&& e.has_score == data[40]
            &&& e.score == vstd::bytes::spec_u64_from_le_bytes(data.subrange(41, 49))
            &&& e.has_reward == data[49]
            &&& e.reward == vstd::bytes::spec_u64_from_le_bytes(data.subrange(50, 58))
            &&& e.claimed == data[58]
            &&& e.bump == data[59]
        },
{
    if data.len() >= 8 {
        let h = data.subrange(0, 8);
        assert(h == spec_discriminator(ENTRY_KIND) <==> (h[0] == 3 && h[1] == 0 && h[2] == 0
            && h[3] == 0 && h[4] == 0 && h[5] == 0 && h[6] == 0 && h[7] == 0)) by {
            if h[0] == 3 && h[1] == 0 && h[2] == 0 && h[3] == 0 && h[4] == 0 && h[5] == 0 && h[6]
                == 0 && h[7] == 0 {
                assert(h =~= spec_discriminator(ENTRY_KIND));
            }
        }
    }
    if data.len() >= 60 {
        let t = data.subrange(8, 60);
        let w = entry_from_layout_bytes(t);
        lemma_entry_of(data, w);
        lemma_entry_layout(w);
        assert(t[32] == data[40] && t[41] == data[49] && t[50] == data[58] && t[51] == data[59]);
        assert(t.subrange(0, 32) =~= data.subrange(8, 40));
        assert(t.subrange(33, 41) =~= data.subrange(41, 49));
        assert(t.subrange(42, 50) =~= data.subrange(50, 58));
    }
}

} // verus!
