//! The global configuration account.
use crate::codec::{push_bytes, Address};
use crate::pda::{find_program_address, spec_find_program_address};
use crate::state::{push_discriminator, spec_discriminator};
use vstd::prelude::*;

verus! {

/// Tag of the config account's discriminator.
pub const CONFIG_KIND: u8 = 1;

/// Size of the config's fields, after the discriminator.
pub const CONFIG_LEN: usize = 32;

/// Size of the config account: discriminator and fields.
pub const CONFIG_SPACE: usize = 40;

/// The fields of the config account.
#[derive(Debug, Clone, Copy, PartialEq, Eq)]
pub struct Config {
    /// The program's authority.
    pub authority: Address,
}

/// The data of the config account holding `c`.
pub open spec fn new_config_account(c: Config) -> Seq<u8> {
    spec_discriminator(CONFIG_KIND) + c.authority@
}

/// Seed prefix of the config address: `b"config"`.
pub open spec fn spec_config_prefix() -> Seq<u8> {
    seq![99u8, 111, 110, 102, 105, 103]
}

/// Seeds of the config address: `["config"]`.
pub open spec fn spec_config_seeds() -> Seq<Seq<u8>> {
    seq![spec_config_prefix()]
}

impl Config {
    /// The data of the config account holding this config.
    pub fn to_account_data(&self) -> (r: Vec<u8>)
        ensures
            r@ == new_config_account(*self),
    {
        let mut out: Vec<u8> = Vec::new();
        push_discriminator(&mut out, CONFIG_KIND);
        push_bytes(&mut out, &self.authority);
        out
    }

    /// The seeds of the config address.
    pub fn seeds() -> (r: Vec<Vec<u8>>)
        ensures
            r.deep_view() == spec_config_seeds(),
    {
        let prefix: Vec<u8> = vec![99u8, 111, 110, 102, 105, 103];
        assert(prefix@ =~= spec_config_prefix());
        let r: Vec<Vec<u8>> = vec![prefix];
        assert(r.deep_view()[0] =~= spec_config_prefix());
        assert(r.deep_view() =~= spec_config_seeds());
        r
    }

    /// Finds the config address, with its bump seed and the seeds it was
    /// derived from.
    pub fn find_program_address(program_id: &Address) -> (r: Option<(Address, u8, Vec<Vec<u8>>)>)
        ensures
            match r {
                Some((address, bump, seeds)) => {
                    &&& spec_find_program_address(spec_config_seeds(), program_id@) == Some(
                        (address@, bump),
                    )
                    &&& seeds.deep_view() == spec_config_seeds()
                },
                None => spec_find_program_address(spec_config_seeds(), program_id@) is None,
            },
    {
        let seeds = Self::seeds();
        match find_program_address(&seeds, program_id) {
            Some((address, bump)) => Some((address, bump, seeds)),
            None => None,
        }
    }
}

} // verus!
