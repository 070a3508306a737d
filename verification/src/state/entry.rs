//! The entry account: one per player and season.
use crate::codec::{
    copy_range, push_bytes, push_u64_le, push_zeros, read_address, read_u64_le, Address,
};
use crate::error::ProcessError;
use crate::pda::{find_program_address, spec_find_program_address};
use crate::state::{has_discriminator, push_discriminator, spec_discriminator};
use vstd::bytes::{lemma_auto_spec_u64_to_from_le_bytes, spec_u64_from_le_bytes, spec_u64_to_le_bytes};
use vstd::prelude::*;

verus! {

broadcast use vstd::array::group_array_axioms;

/// Tag of the entry account's discriminator.
pub const ENTRY_KIND: u8 = 3;

/// Size of an entry's fields and reserved bytes, after the discriminator.
pub const ENTRY_LEN: usize = 116;

/// Size of an entry account: discriminator and fields.
pub const ENTRY_SPACE: usize = 124;

/// Where an entry's reserved bytes begin in its account data.
pub const ENTRY_RESERVED_START: usize = 60;

/// The fields of an entry account.
#[derive(Debug, Clone, Copy, PartialEq, Eq)]
pub struct Entry {
    /// The player who entered.
    pub player: Address,
    /// Nonzero once a score was submitted.
    pub has_score: u8,
    /// The submitted score.
    pub score: u64,
    /// Nonzero once a reward was assigned.
    pub has_reward: u8,
    /// The assigned reward.
    pub reward: u64,
    /// Nonzero once the reward was claimed.
    pub claimed: u8,
    /// Bump seed of the entry's address.
    pub bump: u8,
}

/// The 52 bytes that store an entry's fields, in layout order.
pub open spec fn entry_layout(e: Entry) -> Seq<u8> {
    e.player@ + seq![e.has_score] + spec_u64_to_le_bytes(e.score) + seq![e.has_reward]
        + spec_u64_to_le_bytes(e.reward) + seq![e.claimed, e.bump]
}

/// Whether `data` is entry account data: the right size and discriminator.
pub open spec fn is_entry_account(data: Seq<u8>) -> bool {
    &&& data.len() == ENTRY_SPACE
    &&& data.subrange(0, 8) == spec_discriminator(ENTRY_KIND)
}

/// The entry whose fields are stored in `data`.
pub open spec fn entry_of(data: Seq<u8>) -> Entry {
    choose|e: Entry| entry_layout(e) == data.subrange(8, ENTRY_RESERVED_START as int)
}

/// `data` with the fields of `e` written over its field bytes; the
/// discriminator and reserved bytes are kept.
pub open spec fn with_entry(data: Seq<u8>, e: Entry) -> Seq<u8> {
    data.subrange(0, 8) + entry_layout(e) + data.subrange(
        ENTRY_RESERVED_START as int,
        data.len() as int,
    )
}

/// The data of a newly created entry account: zero reserved bytes.
pub open spec fn new_entry_account(e: Entry) -> Seq<u8> {
    spec_discriminator(ENTRY_KIND) + entry_layout(e) + Seq::new(64, |i: int| 0u8)
}

/// Seed prefix of entry addresses: `b"entry"`.
pub open spec fn spec_entry_prefix() -> Seq<u8> {
    seq![101u8, 110, 116, 114, 121]
}

/// Seeds of an entry's address: `["entry", season, player]`.
pub open spec fn spec_entry_seeds(season: Seq<u8>, player: Seq<u8>) -> Seq<Seq<u8>> {
    seq![spec_entry_prefix(), season, player]
}

/// The bytes of an entry's layout have fixed lengths and give back each field.
pub proof fn lemma_entry_layout(e: Entry)
    ensures
        entry_layout(e).len() == 52,
        entry_layout(e).subrange(0, 32) == e.player@,
        entry_layout(e)[32] == e.has_score,
        spec_u64_from_le_bytes(entry_layout(e).subrange(33, 41)) == e.score,
        entry_layout(e)[41] == e.has_reward,
        spec_u64_from_le_bytes(entry_layout(e).subrange(42, 50)) == e.reward,
        entry_layout(e)[50] == e.claimed,
        entry_layout(e)[51] == e.bump,
{
    lemma_auto_spec_u64_to_from_le_bytes();
    let l = entry_layout(e);
    assert(l.subrange(0, 32) =~= e.player@);
    assert(l.subrange(33, 41) =~= spec_u64_to_le_bytes(e.score));
    assert(l.subrange(42, 50) =~= spec_u64_to_le_bytes(e.reward));
}

/// Two entries with the same layout bytes are the same entry.
pub proof fn lemma_entry_layout_injective(a: Entry, b: Entry)
    requires
        entry_layout(a) == entry_layout(b),
    ensures
        a == b,
{
    lemma_entry_layout(a);
    lemma_entry_layout(b);
    assert(a.player =~= b.player);
}

/// `entry_of` reads back the entry whose layout the bytes are.
pub proof fn lemma_entry_of(data: Seq<u8>, e: Entry)
    requires
        entry_layout(e) == data.subrange(8, ENTRY_RESERVED_START as int),
    ensures
        entry_of(data) == e,
{
    let t = entry_of(data);
    assert(entry_layout(t) == data.subrange(8, ENTRY_RESERVED_START as int));
    lemma_entry_layout_injective(t, e);
}

impl Entry {
    /// A new entry of `player`: no score, no reward, not claimed.
    pub fn new(player: Address, bump: u8) -> (r: Entry)
        ensures
            r == (Entry {
                player,
                has_score: 0,
                score: 0,
                has_reward: 0,
                reward: 0,
                claimed: 0,
                bump,
            }),
    {
        Entry { player, has_score: 0, score: 0, has_reward: 0, reward: 0, claimed: 0, bump }
    }

    /// Reads the entry stored in account `data`; `InvalidAccountData` when
    /// the data has the wrong size or discriminator.
    pub fn load(data: &[u8]) -> (r: Result<Entry, ProcessError>)
        ensures
            match r {
                Ok(e) => is_entry_account(data@) && e == entry_of(data@),
                Err(err) => !is_entry_account(data@) && err == ProcessError::InvalidAccountData,
            },
    {
        if data.len() != ENTRY_SPACE || !has_discriminator(data, ENTRY_KIND) {
            return Err(ProcessError::InvalidAccountData);
        }
        let e = Entry {
            player: read_address(data, 8),
            has_score: data[40],
            score: read_u64_le(data, 41),
            has_reward: data[49],
            reward: read_u64_le(data, 50),
            claimed: data[58],
            bump: data[59],
        };
        proof {
            lemma_auto_spec_u64_to_from_le_bytes();
            let d = data@;
            assert(spec_u64_to_le_bytes(e.score) == d.subrange(41, 49));
            assert(spec_u64_to_le_bytes(e.reward) == d.subrange(50, 58));
            assert(entry_layout(e) =~= d.subrange(8, 60));
            lemma_entry_of(d, e);
        }
        Ok(e)
    }

    /// Appends the layout bytes of this entry to `out`.
    fn push_layout(&self, out: &mut Vec<u8>)
        ensures
            final(out)@ == old(out)@ + entry_layout(*self),
    {
        push_bytes(out, &self.player);
        out.push(self.has_score);
        push_u64_le(out, self.score);
        out.push(self.has_reward);
        push_u64_le(out, self.reward);
        out.push(self.claimed);
        out.push(self.bump);
        assert(out@ =~= old(out)@ + entry_layout(*self));
    }

    /// Writes this entry's fields into entry account `data`, keeping its
    /// discriminator and reserved bytes.
    pub fn store(&self, data: &mut Vec<u8>)
        requires
            old(data)@.len() == ENTRY_SPACE,
        ensures
            final(data)@ == with_entry(old(data)@, *self),
    {
        let mut out = copy_range(data.as_slice(), 0, 8);
        self.push_layout(&mut out);
        let reserved = copy_range(data.as_slice(), ENTRY_RESERVED_START, ENTRY_SPACE);
        push_bytes(&mut out, reserved.as_slice());
        *data = out;
    }

    /// The data of a new entry account holding this entry.
    pub fn to_account_data(&self) -> (r: Vec<u8>)
        ensures
            r@ == new_entry_account(*self),
    {
        let mut out: Vec<u8> = Vec::new();
        push_discriminator(&mut out, ENTRY_KIND);
        self.push_layout(&mut out);
        push_zeros(&mut out, ENTRY_LEN - 52);
        assert(out@ =~= new_entry_account(*self));
        out
    }

    /// The seeds of the address of `player`'s entry in `season`.
    pub fn seeds(season: &Address, player: &Address) -> (r: Vec<Vec<u8>>)
        ensures
            r.deep_view() == spec_entry_seeds(season@, player@),
    {
        let prefix: Vec<u8> = vec![101u8, 110, 116, 114, 121];
        let mut s: Vec<u8> = Vec::new();
        push_bytes(&mut s, season);
        let mut p: Vec<u8> = Vec::new();
        push_bytes(&mut p, player);
        assert(prefix@ =~= spec_entry_prefix());
        let r: Vec<Vec<u8>> = vec![prefix, s, p];
        assert(r.deep_view()[0] =~= spec_entry_prefix());
        assert(r.deep_view()[1] =~= season@);
        assert(r.deep_view()[2] =~= player@);
        assert(r.deep_view() =~= spec_entry_seeds(season@, player@));
        r
    }

    /// Finds the address of `player`'s entry in `season`, with its bump seed
    /// and the seeds it was derived from.
    pub fn find_program_address(program_id: &Address, season: &Address, player: &Address) -> (r:
        Option<(Address, u8, Vec<Vec<u8>>)>)
        ensures
            match r {
                Some((address, bump, seeds)) => {
                    &&& spec_find_program_address(spec_entry_seeds(season@, player@), program_id@)
                        == Some((address@, bump))
                    &&& seeds.deep_view() == spec_entry_seeds(season@, player@)
                },
                None => spec_find_program_address(
                    spec_entry_seeds(season@, player@),
                    program_id@,
                ) is None,
            },
    {
        let seeds = Self::seeds(season, player);
        match find_program_address(&seeds, program_id) {
            Some((address, bump)) => Some((address, bump, seeds)),
            None => None,
        }
    }
}

} // verus!
