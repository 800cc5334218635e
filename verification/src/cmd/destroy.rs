//! The `destroy` command: which flags the call carries.
use vstd::prelude::*;

verus! {

pub const DOMAIN_DESTROY_GRACEFUL: u32 = 1;

/// The flags of a destroy call: graceful or not.
pub fn destroy_flags(graceful: bool) -> (r: u32)
    ensures
        r == if graceful {
            DOMAIN_DESTROY_GRACEFUL
        } else {
            0
        },
{
    let mut flags: u32 = 0;
    if graceful {
        flags = flags | DOMAIN_DESTROY_GRACEFUL;
    }
    assert((0u32 | 1u32) == 1u32) by (bit_vector);
    flags
}

/// The call that destroys a domain.
#[derive(Clone, Copy, Debug, PartialEq, Eq, Structural)]
pub enum DestroyCall {
    /// `domain_destroy`, when no flag is set.
    Destroy,
    /// `domain_destroy_flags` with the flags.
    DestroyFlags(u32),
}

/// Destroys with flags when there are any, plainly otherwise.
pub fn destroy_call(flags: u32) -> (r: DestroyCall)
    ensures
        r == if flags != 0 {
            DestroyCall::DestroyFlags(flags)
        } else {
            DestroyCall::Destroy
        },
{
    if flags != 0 {
        DestroyCall::DestroyFlags(flags)
    } else {
        DestroyCall::Destroy
    }
}

} // verus!
