//! The `iface-list` command: which interfaces to list and how to label them.
use vstd::prelude::*;

verus! {

pub const VIR_CONNECT_LIST_INTERFACES_INACTIVE: u32 = 1;
pub const VIR_CONNECT_LIST_INTERFACES_ACTIVE: u32 = 2;

/// The listing flags: inactive ones only, all of them, or by default the active ones.
pub fn list_flags(inactive: bool, all: bool) -> (r: u32)
    ensures
        r == if inactive {
            VIR_CONNECT_LIST_INTERFACES_INACTIVE
        } else if all {
            3
        } else {
            VIR_CONNECT_LIST_INTERFACES_ACTIVE
        },
{
    if inactive {
        VIR_CONNECT_LIST_INTERFACES_INACTIVE
    } else if all {
        assert((1u32 | 2u32) == 3u32) by (bit_vector);
        VIR_CONNECT_LIST_INTERFACES_INACTIVE | VIR_CONNECT_LIST_INTERFACES_ACTIVE
    } else {
        VIR_CONNECT_LIST_INTERFACES_ACTIVE
    }
}

/// The message that labels an interface's state: `Inactive` for 0, `Active` otherwise.
pub fn state_label(active: i32) -> (r: String)
    ensures
        r@ == if active == 0 {
            "Inactive"@
        } else {
            "Active"@
        },
{
    if active == 0 {
        String::from_str("Inactive")
    } else {
        String::from_str("Active")
    }
}

} // verus!
