//! The `qemu-agent-command` command: its arguments and how long to wait.
use vstd::prelude::*;
use crate::args::ArgValue;
use crate::wire::{bits_i32, bits_to_i32};

verus! {

pub const DOMAIN_QEMU_AGENT_COMMAND_BLOCK: i32 = -2;
pub const DOMAIN_QEMU_AGENT_COMMAND_DEFAULT: i32 = -1;
pub const DOMAIN_QEMU_AGENT_COMMAND_NOWAIT: i32 = 0;

/// Reads an argument as a number of type `T`; the argument itself is the error.
pub fn check_type<T: ArgValue>(value: &str) -> (r: Result<T, String>)
    ensures
        T::arg_value(value@) matches Some(v) ==> r == Ok::<T, String>(v),
        T::arg_value(value@) is None ==> (r matches Err(e) && e@ == value@),
{
    match T::parse_arg(value) {
        Some(v) => Ok(v),
        None => Err(String::from_str(value)),
    }
}

/// The timeout of the agent call: no wait with `--async`, blocking with
/// `--block`, the given number of seconds (its 32 bits read as signed), or the
/// default.
pub fn agent_timeout(async_flag: bool, block: bool, timeout: Option<u32>) -> (r: i32)
    ensures
        r == if async_flag {
            DOMAIN_QEMU_AGENT_COMMAND_NOWAIT
        } else if block {
            DOMAIN_QEMU_AGENT_COMMAND_BLOCK
        } else {
            match timeout {
                Some(t) => bits_i32(t),
                None => DOMAIN_QEMU_AGENT_COMMAND_DEFAULT,
            }
        },
{
    let mut r = DOMAIN_QEMU_AGENT_COMMAND_DEFAULT;
    if async_flag {
        r = DOMAIN_QEMU_AGENT_COMMAND_NOWAIT;
    } else if block {
        r = DOMAIN_QEMU_AGENT_COMMAND_BLOCK;
    } else if let Some(t) = timeout {
        r = bits_to_i32(t);
    }
    r
}

} // verus!
