//! The season account: one per vote account and starting epoch.
use crate::codec::{
    copy_range, push_bytes, push_u32_le, push_u64_le, push_zeros, read_address, read_u32_le,
    read_u64_le, spec_u64_to_be_bytes, u64_to_be_bytes, Address,
};
use crate::error::ProcessError;
use crate::pda::{find_program_address, spec_find_program_address};
use crate::state::{has_discriminator, push_discriminator, spec_discriminator};
use vstd::bytes::{
    lemma_auto_spec_u32_to_from_le_bytes, lemma_auto_spec_u64_to_from_le_bytes,
    spec_u32_from_le_bytes, spec_u32_to_le_bytes, spec_u64_from_le_bytes, spec_u64_to_le_bytes,
};
use vstd::prelude::*;

verus! {

broadcast use vstd::array::group_array_axioms;

/// Tag of the season account's discriminator.
pub const SEASON_KIND: u8 = 2;

/// Size of a season's fields and reserved bytes, after the discriminator.
pub const SEASON_LEN: usize = 230;

/// Size of a season account: discriminator and fields.
pub const SEASON_SPACE: usize = 238;

/// Where a season's reserved bytes begin in its account data.
pub const SEASON_RESERVED_START: usize = 110;

/// The lifecycle of a season: `Open -> Locked -> Scoring -> Settled`.
#[derive(Debug, Clone, Copy, PartialEq, Eq, Structural)]
pub enum SeasonStatus {
    /// Accepting new entries.
    Open,
    /// Entries closed, the epoch window has started.
    Locked,
    /// Scores are being submitted by the authority.
    Scoring,
    /// Rewards distributed, players can claim.
    Settled,
}

/// The byte that stores each status, in lifecycle order.
pub open spec fn spec_status_byte(s: SeasonStatus) -> u8 {
    match s {
        SeasonStatus::Open => 0,
        SeasonStatus::Locked => 1,
        SeasonStatus::Scoring => 2,
        SeasonStatus::Settled => 3,
    }
}

impl SeasonStatus {
    /// The byte stored for this status.
    pub fn as_u8(&self) -> (r: u8)
        ensures
            r == spec_status_byte(*self),
    {
        match self {
            SeasonStatus::Open => 0,
            SeasonStatus::Locked => 1,
            SeasonStatus::Scoring => 2,
            SeasonStatus::Settled => 3,
        }
    }
}

/// The fields of a season account.
#[derive(Debug, Clone, Copy, PartialEq, Eq)]
pub struct Season {
    /// Account with authority over the season.
    pub authority: Address,
    /// Token account holding the prize pool.
    pub vault: Address,
    /// First epoch of the season.
    pub epoch_start: u64,
    /// Last epoch of the season.
    pub epoch_end: u64,
    /// Tokens to be shared among the players.
    pub prize_pool: u64,
    /// Tokens each player pays to enter.
    pub entry_fee: u64,
    /// Number of players who entered.
    pub total_entries: u32,
    /// The stored `SeasonStatus` byte.
    pub status: u8,
    /// Bump seed of the season's address.
    pub bump: u8,
}

/// The 102 bytes that store a season's fields, in layout order.
pub open spec fn season_layout(s: Season) -> Seq<u8> {
    s.authority@ + s.vault@ + spec_u64_to_le_bytes(s.epoch_start) + spec_u64_to_le_bytes(
        s.epoch_end,
    ) + spec_u64_to_le_bytes(s.prize_pool) + spec_u64_to_le_bytes(s.entry_fee)
        + spec_u32_to_le_bytes(s.total_entries) + seq![s.status, s.bump]
}

/// Whether `data` is season account data: the right size and discriminator.
pub open spec fn is_season_account(data: Seq<u8>) -> bool {
    &&& data.len() == SEASON_SPACE
    &&& data.subrange(0, 8) == spec_discriminator(SEASON_KIND)
}

/// The season whose fields are stored in `data`.
pub open spec fn season_of(data: Seq<u8>) -> Season {
    choose|s: Season| season_layout(s) == data.subrange(8, SEASON_RESERVED_START as int)
}

/// `data` with the fields of `s` written over its field bytes; the
/// discriminator and reserved bytes are kept.
pub open spec fn with_season(data: Seq<u8>, s: Season) -> Seq<u8> {
    data.subrange(0, 8) + season_layout(s) + data.subrange(
        SEASON_RESERVED_START as int,
        data.len() as int,
    )
}

/// The data of a newly created season account: zero reserved bytes.
pub open spec fn new_season_account(s: Season) -> Seq<u8> {
    spec_discriminator(SEASON_KIND) + season_layout(s) + Seq::new(128, |i: int| 0u8)
}

/// Seed prefix of season addresses: `b"season"`.
pub open spec fn spec_season_prefix() -> Seq<u8> {
    seq![115u8, 101, 97, 115, 111, 110]
}

/// Seeds of a season's address: `["season", vote_account, epoch_start as
/// big-endian bytes]`.
pub open spec fn spec_season_seeds(vote_account: Seq<u8>, epoch_start: u64) -> Seq<Seq<u8>> {
    seq![spec_season_prefix(), vote_account, spec_u64_to_be_bytes(epoch_start)]
}

/// The bytes of a season's layout have fixed lengths and give back each field.
pub proof fn lemma_season_layout(s: Season)
    ensures
        season_layout(s).len() == 102,
        season_layout(s).subrange(0, 32) == s.authority@,
        season_layout(s).subrange(32, 64) == s.vault@,
        spec_u64_from_le_bytes(season_layout(s).subrange(64, 72)) == s.epoch_start,
        spec_u64_from_le_bytes(season_layout(s).subrange(72, 80)) == s.epoch_end,
        spec_u64_from_le_bytes(season_layout(s).subrange(80, 88)) == s.prize_pool,
        spec_u64_from_le_bytes(season_layout(s).subrange(88, 96)) == s.entry_fee,
        spec_u32_from_le_bytes(season_layout(s).subrange(96, 100)) == s.total_entries,
        season_layout(s)[100] == s.status,
        season_layout(s)[101] == s.bump,
{
    lemma_auto_spec_u64_to_from_le_bytes();
    lemma_auto_spec_u32_to_from_le_bytes();
    let l = season_layout(s);
    assert(l.subrange(0, 32) =~= s.authority@);
    assert(l.subrange(32, 64) =~= s.vault@);
    assert(l.subrange(64, 72) =~= spec_u64_to_le_bytes(s.epoch_start));
    assert(l.subrange(72, 80) =~= spec_u64_to_le_bytes(s.epoch_end));
    assert(l.subrange(80, 88) =~= spec_u64_to_le_bytes(s.prize_pool));
    assert(l.subrange(88, 96) =~= spec_u64_to_le_bytes(s.entry_fee));
    assert(l.subrange(96, 100) =~= spec_u32_to_le_bytes(s.total_entries));
}

/// Two seasons with the same layout bytes are the same season.
pub proof fn lemma_season_layout_injective(a: Season, b: Season)
    requires
        season_layout(a) == season_layout(b),
    ensures
        a == b,
{
    lemma_season_layout(a);
    lemma_season_layout(b);
    assert(a.authority =~= b.authority);
    assert(a.vault =~= b.vault);
}

/// `season_of` reads back the season whose layout the bytes are.
pub proof fn lemma_season_of(data: Seq<u8>, s: Season)
    requires
        season_layout(s) == data.subrange(8, SEASON_RESERVED_START as int),
    ensures
        season_of(data) == s,
{
    let t = season_of(data);
    assert(season_layout(t) == data.subrange(8, SEASON_RESERVED_START as int));
    lemma_season_layout_injective(t, s);
}

impl Season {
    /// The season opened by `authority` for the given vault, fee and epochs:
    /// empty prize pool, no entries, status `Open`.
    pub fn new(
        authority: Address,
        vault: Address,
        entry_fee: u64,
        epoch_start: u64,
        epoch_end: u64,
        bump: u8,
    ) -> (r: Season)
        ensures
            r == (Season {
                authority,
                vault,
                epoch_start,
                epoch_end,
                prize_pool: 0,
                entry_fee,
                total_entries: 0,
                status: spec_status_byte(SeasonStatus::Open),
                bump,
            }),
    {
        Season {
            authority,
            vault,
            epoch_start,
            epoch_end,
            prize_pool: 0,
            entry_fee,
            total_entries: 0,
            status: SeasonStatus::Open.as_u8(),
            bump,
        }
    }

    /// Reads the season stored in account `data`; `InvalidAccountData` when
    /// the data has the wrong size or discriminator.
    pub fn load(data: &[u8]) -> (r: Result<Season, ProcessError>)
        ensures
            match r {
                Ok(s) => is_season_account(data@) && s == season_of(data@),
                Err(e) => !is_season_account(data@) && e == ProcessError::InvalidAccountData,
            },
    {
        if data.len() != SEASON_SPACE || !has_discriminator(data, SEASON_KIND) {
            return Err(ProcessError::InvalidAccountData);
        }
        let s = Season {
            authority: read_address(data, 8),
            vault: read_address(data, 40),
            epoch_start: read_u64_le(data, 72),
            epoch_end: read_u64_le(data, 80),
            prize_pool: read_u64_le(data, 88),
            entry_fee: read_u64_le(data, 96),
            total_entries: read_u32_le(data, 104),
            status: data[108],
            bump: data[109],
        };
        proof {
            lemma_auto_spec_u64_to_from_le_bytes();
            lemma_auto_spec_u32_to_from_le_bytes();
            let d = data@;
            assert(spec_u64_to_le_bytes(s.epoch_start) == d.subrange(72, 80));
            assert(spec_u64_to_le_bytes(s.epoch_end) == d.subrange(80, 88));
            assert(spec_u64_to_le_bytes(s.prize_pool) == d.subrange(88, 96));
            assert(spec_u64_to_le_bytes(s.entry_fee) == d.subrange(96, 104));
            assert(spec_u32_to_le_bytes(s.total_entries) == d.subrange(104, 108));
            assert(season_layout(s) =~= d.subrange(8, 110));
            lemma_season_of(d, s);
        }
        Ok(s)
    }

    /// Appends the layout bytes of this season to `out`.
    fn push_layout(&self, out: &mut Vec<u8>)
        ensures
            final(out)@ == old(out)@ + season_layout(*self),
    {
        push_bytes(out, &self.authority);
        push_bytes(out, &self.vault);
        push_u64_le(out, self.epoch_start);
        push_u64_le(out, self.epoch_end);
        push_u64_le(out, self.prize_pool);
        push_u64_le(out, self.entry_fee);
        push_u32_le(out, self.total_entries);
        out.push(self.status);
        out.push(self.bump);
        assert(out@ =~= old(out)@ + season_layout(*self));
    }

    /// Writes this season's fields into season account `data`, keeping its
    /// discriminator and reserved bytes.
    pub fn store(&self, data: &mut Vec<u8>)
        requires
            old(data)@.len() == SEASON_SPACE,
        ensures
            final(data)@ == with_season(old(data)@, *self),
    {
        let mut out = copy_range(data.as_slice(), 0, 8);
        self.push_layout(&mut out);
        let reserved = copy_range(data.as_slice(), SEASON_RESERVED_START, SEASON_SPACE);
        push_bytes(&mut out, reserved.as_slice());
        *data = out;
    }

    /// The data of a new season account holding this season.
    pub fn to_account_data(&self) -> (r: Vec<u8>)
        ensures
            r@ == new_season_account(*self),
    {
        let mut out: Vec<u8> = Vec::new();
        push_discriminator(&mut out, SEASON_KIND);
        self.push_layout(&mut out);
        push_zeros(&mut out, SEASON_LEN - 102);
        assert(out@ =~= new_season_account(*self));
        out
    }

    /// The seeds of the address of the season for `vote_account` starting at
    /// `epoch_start`.
    pub fn seeds(vote_account: &Address, epoch_start: u64) -> (r: Vec<Vec<u8>>)
        ensures
            r.deep_view() == spec_season_seeds(vote_account@, epoch_start),
    {
        let prefix: Vec<u8> = vec![115u8, 101, 97, 115, 111, 110];
        let mut vote: Vec<u8> = Vec::new();
        push_bytes(&mut vote, vote_account);
        let be = u64_to_be_bytes(epoch_start);
        assert(prefix@ =~= spec_season_prefix());
        let r: Vec<Vec<u8>> = vec![prefix, vote, be];
        assert(r.deep_view()[0] =~= spec_season_prefix());
        assert(r.deep_view()[1] =~= vote_account@);
        assert(r.deep_view()[2] =~= spec_u64_to_be_bytes(epoch_start));
        assert(r.deep_view() =~= spec_season_seeds(vote_account@, epoch_start));
        r
    }

    /// Finds the address of the season for `vote_account` starting at
    /// `epoch_start`, with its bump seed and the seeds it was derived from.
    pub fn find_program_address(program_id: &Address, vote_account: &Address, epoch_start: u64) -> (r:
        Option<(Address, u8, Vec<Vec<u8>>)>)
        ensures
            match r {
                Some((address, bump, seeds)) => {
                    &&& spec_find_program_address(
                        spec_season_seeds(vote_account@, epoch_start),
                        program_id@,
                    ) == Some((address@, bump))
                    &&& seeds.deep_view() == spec_season_seeds(vote_account@, epoch_start)
                },
                None => spec_find_program_address(
                    spec_season_seeds(vote_account@, epoch_start),
                    program_id@,
                ) is None,
            },
    {
        let seeds = Self::seeds(vote_account, epoch_start);
        match find_program_address(&seeds, program_id) {
            Some((address, bump)) => Some((address, bump, seeds)),
            None => None,
        }
    }
}

} // verus!
