//! The `pool-event` command: event names, and the lines printed for events.
use vstd::prelude::*;
use crate::text::{push_str, str_eq};

verus! {

/// The number of the storage pool event called `name`.
pub open spec fn event_number(name: Seq<char>) -> Option<i32> {
    if name == "lifecycle"@ {
        Some(0)
    } else if name == "refresh"@ {
        Some(1)
    } else {
        None
    }
}

/// The name of a storage pool lifecycle event.
pub open spec fn lifecycle_event_name(event: i32) -> Option<Seq<char>> {
    if event == 0 {
        Some("Defined"@)
    } else if event == 1 {
        Some("Undefined"@)
    } else if event == 2 {
        Some("Started"@)
    } else if event == 3 {
        Some("Stopped"@)
    } else if event == 4 {
        Some("Created"@)
    } else if event == 5 {
        Some("Deleted"@)
    } else {
        None
    }
}

/// The number of the event called `name`, if there is one.
pub fn event_id(name: &str) -> (r: Option<i32>)
    ensures
        r == event_number(name@),
{
    if str_eq(name, "lifecycle") {
        Some(0)
    } else if str_eq(name, "refresh") {
        Some(1)
    } else {
        None
    }
}

/// The names of the events that can be watched.
pub fn event_names() -> (r: Vec<String>)
    ensures
        r@.len() == 2,
        r@[0]@ == "lifecycle"@,
        r@[1]@ == "refresh"@,
        forall|i: int| 0 <= i < r@.len() ==> event_number(#[trigger] r@[i]@) is Some,
{
    let mut v: Vec<String> = Vec::new();
    v.push(String::from_str("lifecycle"));
    v.push(String::from_str("refresh"));
    assert(event_number(v@[0]@) == Some(0i32));
    v
}

/// The name of a lifecycle event, if the number is one.
pub fn lifecycle_name(event: i32) -> (r: Option<String>)
    ensures
        match lifecycle_event_name(event) {
            Some(n) => r matches Some(s) && s@ == n,
            None => r is None,
        },
{
    if event == 0 {
        Some(String::from_str("Defined"))
    } else if event == 1 {
        Some(String::from_str("Undefined"))
    } else if event == 2 {
        Some(String::from_str("Started"))
    } else if event == 3 {
        Some(String::from_str("Stopped"))
    } else if event == 4 {
        Some(String::from_str("Created"))
    } else if event == 5 {
        Some(String::from_str("Deleted"))
    } else {
        None
    }
}

/// The line printed for a lifecycle event of a pool, if the event is known.
pub fn lifecycle_message(pool: &str, event: i32) -> (r: Option<String>)
    ensures
        match lifecycle_event_name(event) {
            Some(n) => r matches Some(s) && s@ == "event 'lifecycle' for storage pool "@ + pool@
                + ": "@ + n,
            None => r is None,
        },
{
    match lifecycle_name(event) {
        Some(name) => {
            let mut s = String::from_str("event 'lifecycle' for storage pool ");
            push_str(&mut s, pool);
            push_str(&mut s, ": ");
            push_str(&mut s, name.as_str());
            Some(s)
        },
        None => None,
    }
}

/// The line printed for a refresh event of a pool.
pub fn refresh_message(pool: &str) -> (r: String)
    ensures
        r@ == "event 'refresh' for storage pool "@ + pool@,
{
    let mut s = String::from_str("event 'refresh' for storage pool ");
    push_str(&mut s, pool);
    s
}

/// The lifecycle events are named by libvirt's storage pool event numbers:
/// 0 Defined, 1 Undefined, 2 Started, 3 Stopped, 4 Created, 5 Deleted; no
/// other number has a name.
pub proof fn lemma_lifecycle_names_declared(event: i32)
    ensures
        lifecycle_event_name(event) == if 0 <= event < 6 {
            Some(
                seq!["Defined"@, "Undefined"@, "Started"@, "Stopped"@, "Created"@, "Deleted"@][event as int],
            )
        } else {
            None::<Seq<char>>
        },
{
}

/// The events that can be watched are numbered as libvirt numbers them:
/// `lifecycle` 0, `refresh` 1.
pub proof fn lemma_event_numbers_declared()
    ensures
        event_number("lifecycle"@) == Some(0i32),
        event_number("refresh"@) == Some(1i32),
{
    reveal_strlit("lifecycle");
    reveal_strlit("refresh");
    assert("refresh"@[0] != "lifecycle"@[0]);
}

} // verus!
