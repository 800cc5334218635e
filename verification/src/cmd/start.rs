//! The `start` command: which flags the call carries.
use vstd::prelude::*;

verus! {

pub const DOMAIN_START_PAUSED: u32 = 1;
pub const DOMAIN_START_AUTODESTROY: u32 = 2;
pub const DOMAIN_START_BYPASS_CACHE: u32 = 4;
pub const DOMAIN_START_FORCE_BOOT: u32 = 8;

/// The flags of a start call, one bit per option asked for.
pub open spec fn start_flag_bits(
    paused: bool,
    autodestroy: bool,
    bypass_cache: bool,
    force_boot: bool,
) -> u32 {
    ((if paused { 1u32 } else { 0u32 }) + (if autodestroy { 2u32 } else { 0u32 }) + (if bypass_cache {
        4u32
    } else {
        0u32
    }) + (if force_boot { 8u32 } else { 0u32 })) as u32
}

/// Gathers the start options into the call's flags.
pub fn start_flags(paused: bool, autodestroy: bool, bypass_cache: bool, force_boot: bool) -> (r: u32)
    ensures
        r == start_flag_bits(paused, autodestroy, bypass_cache, force_boot),
{
    let mut flags: u32 = 0;
    if paused {
        assert((0u32 | 1u32) == 1u32) by (bit_vector);
        flags = flags | DOMAIN_START_PAUSED;
    }
    if autodestroy {
        assert(forall|f: u32| f < 2 ==> (f | 2u32) == f + 2) by (bit_vector);
        flags = flags | DOMAIN_START_AUTODESTROY;
    }
    if bypass_cache {
        assert(forall|f: u32| f < 4 ==> (f | 4u32) == f + 4) by (bit_vector);
        flags = flags | DOMAIN_START_BYPASS_CACHE;
    }
    if force_boot {
        assert(forall|f: u32| f < 8 ==> (f | 8u32) == f + 8) by (bit_vector);
        flags = flags | DOMAIN_START_FORCE_BOOT;
    }
    flags
}

/// The call that starts a domain.
#[derive(Clone, Copy, Debug, PartialEq, Eq, Structural)]
pub enum StartCall {
    /// `domain_create`, when no flag is set.
    Create,
    /// `domain_create_with_flags` with the flags.
    CreateWithFlags(u32),
}

/// Starts with flags when there are any, plainly otherwise.
pub fn start_call(flags: u32) -> (r: StartCall)
    ensures
        r == if flags != 0 {
            StartCall::CreateWithFlags(flags)
        } else {
            StartCall::Create
        },
{
    if flags != 0 {
        StartCall::CreateWithFlags(flags)
    } else {
        StartCall::Create
    }
}

} // verus!
