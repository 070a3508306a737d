//! The program's accounts: their 8-byte discriminators and field layouts.
use crate::codec::push_bytes;
use vstd::prelude::*;

pub mod config;
pub mod entry;
pub mod season;

verus! {

/// Length of the discriminator that starts every account of the program.
pub const DISCRIMINATOR_LEN: usize = 8;

/// The discriminator of an account kind: the kind's tag, then seven zeros.
pub open spec fn spec_discriminator(kind: u8) -> Seq<u8> {
    seq![kind, 0u8, 0u8, 0u8, 0u8, 0u8, 0u8, 0u8]
}

/// Appends the discriminator of `kind` to `out`.
pub fn push_discriminator(out: &mut Vec<u8>, kind: u8)
    ensures
        final(out)@ == old(out)@ + spec_discriminator(kind),
{
    let d: [u8; 8] = [kind, 0, 0, 0, 0, 0, 0, 0];
    push_bytes(out, &d);
    assert(d@ =~= spec_discriminator(kind));
}

/// Whether `data` starts with the discriminator of `kind`.
pub fn has_discriminator(data: &[u8], kind: u8) -> (r: bool)
    ensures
        r == (data@.len() >= 8 && data@.subrange(0, 8) == spec_discriminator(kind)),
{
    if data.len() < 8 {
        return false;
    }
    let ok = data[0] == kind && data[1] == 0 && data[2] == 0 && data[3] == 0 && data[4] == 0
        && data[5] == 0 && data[6] == 0 && data[7] == 0;
    assert(ok ==> data@.subrange(0, 8) =~= spec_discriminator(kind));
    assert(data@.subrange(0, 8) == spec_discriminator(kind) ==> {
        &&& data@.subrange(0, 8)[0] == kind
        &&& data@.subrange(0, 8)[1] == 0u8
        &&& data@.subrange(0, 8)[2] == 0u8
        &&& data@.subrange(0, 8)[3] == 0u8
        &&& data@.subrange(0, 8)[4] == 0u8
        &&& data@.subrange(0, 8)[5] == 0u8
        &&& data@.subrange(0, 8)[6] == 0u8
        &&& data@.subrange(0, 8)[7] == 0u8
    });
    ok
}

} // verus!
