use libvirt_remote::protocol::{Virnetmessageheader, Virnetmessagestatus, Virnetmessagetype};
use libvirt_remote::registry::{serial_add, CallError, ChannelRegistry, Route};

fn header(serial: u32, type_: Virnetmessagetype) -> Virnetmessageheader {
    Virnetmessageheader {
        prog: 0x20008086,
        vers: 1,
        proc: 1,
        type_,
        serial,
        status: Virnetmessagestatus::VirNetOk,
    }
}

#[test]
fn reply_reaches_caller() {
    let mut reg: ChannelRegistry<&str> = ChannelRegistry::new();
    assert_eq!(reg.open_call(3, "caller", true), Ok(()));
    assert!(reg.is_pending(3));
    assert_eq!(reg.channel(3), Some(&"caller"));
    assert_eq!(reg.route(&header(3, Virnetmessagetype::VirNetReply)), Route::Deliver);
    assert_eq!(reg.route(&header(3, Virnetmessagetype::VirNetMessage)), Route::Deliver);
}

#[test]
fn unsolicited_packets() {
    let reg: ChannelRegistry<u8> = ChannelRegistry::new();
    assert_eq!(reg.route(&header(9, Virnetmessagetype::VirNetMessage)), Route::Event);
    assert_eq!(reg.route(&header(9, Virnetmessagetype::VirNetReply)), Route::Discard);
    assert_eq!(reg.channel(9), None);
}

#[test]
fn finished_call_is_not_delivered() {
    let mut reg: ChannelRegistry<u8> = ChannelRegistry::new();
    reg.open_call(4, 1, true).unwrap();
    reg.finish_call(4, false);
    assert!(!reg.is_pending(4));
    assert_eq!(reg.route(&header(4, Virnetmessagetype::VirNetReply)), Route::Discard);
    assert_eq!(reg.route(&header(4, Virnetmessagetype::VirNetMessage)), Route::Event);
}

#[test]
fn stream_call_keeps_channel() {
    let mut reg: ChannelRegistry<u8> = ChannelRegistry::new();
    reg.open_call(5, 1, true).unwrap();
    reg.finish_call(5, true);
    assert!(reg.is_pending(5));
    assert_eq!(reg.route(&header(5, Virnetmessagetype::VirNetStream)), Route::Deliver);
    reg.remove_channel(5);
    assert!(!reg.is_pending(5));
}

#[test]
fn stopped_receiver_refuses_calls() {
    let mut reg: ChannelRegistry<u8> = ChannelRegistry::new();
    assert_eq!(reg.open_call(1, 1, false), Err(CallError::ReceiverNotStarted));
    assert!(!reg.is_pending(1));
}

#[test]
fn add_replaces_channel() {
    let mut reg: ChannelRegistry<u8> = ChannelRegistry::new();
    reg.add_channel(2, 10);
    reg.add_channel(2, 20);
    assert_eq!(reg.channel(2), Some(&20));
}

#[test]
fn serials_advance() {
    assert_eq!(serial_add(0, 1), 1);
    assert_eq!(serial_add(41, 1), 42);
    assert_eq!(serial_add(u32::MAX - 1, 1), u32::MAX);
}
