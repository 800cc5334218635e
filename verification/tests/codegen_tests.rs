use libvirt_remote::codegen::{
    arg_shape, call_methods, ends_with, msg_methods, reply_step, reply_type, str_lt,
    strip_prefix, ArgShape, ReplyStep, ReplyType,
};

fn strings(v: &[&str]) -> Vec<String> {
    v.iter().map(|s| s.to_string()).collect()
}

#[test]
fn call_methods_pair_procedures_with_records() {
    let variants = strings(&[
        "_Reserved0",
        "RemoteProcConnectOpen",
        "RemoteProcConnectClose",
        "RemoteProcNodeGetInfo",
    ]);
    let models = strings(&[
        "RemoteConnectOpenArgs",
        "RemoteNodeGetInfoRet",
        "RemoteDomainCreateArgs",
    ]);
    let calls = call_methods("Remote", &variants, &models);
    assert_eq!(
        calls,
        vec![
            (
                "ConnectOpen".to_string(),
                Some("RemoteConnectOpenArgs".to_string()),
                None
            ),
            ("ConnectClose".to_string(), None, None),
            (
                "NodeGetInfo".to_string(),
                None,
                Some("RemoteNodeGetInfoRet".to_string())
            ),
        ]
    );
}

#[test]
fn call_methods_of_other_programs() {
    let variants = strings(&["QemuProcDomainMonitorCommand", "RemoteProcConnectOpen"]);
    let models = strings(&["QemuDomainMonitorCommandArgs", "QemuDomainMonitorCommandRet"]);
    assert_eq!(
        call_methods("Qemu", &variants, &models),
        vec![(
            "DomainMonitorCommand".to_string(),
            Some("QemuDomainMonitorCommandArgs".to_string()),
            Some("QemuDomainMonitorCommandRet".to_string())
        )]
    );
    assert_eq!(call_methods("Lxc", &variants, &models), vec![]);
}

#[test]
fn msg_methods_sorted_by_record_name() {
    let models = strings(&[
        "RemoteStoragePoolEventRefreshMsg",
        "RemoteDomainEventLifecycleMsg",
        "RemoteNodeGetInfoRet",
        "QemuDomainMonitorEventMsg",
        "RemoteStoragePoolEventLifecycleMsg",
        "RemoteMsgArgs",
    ]);
    assert_eq!(
        msg_methods("Remote", &models),
        vec![
            (
                "DomainEventLifecycleMsg".to_string(),
                "RemoteDomainEventLifecycleMsg".to_string()
            ),
            (
                "StoragePoolEventLifecycleMsg".to_string(),
                "RemoteStoragePoolEventLifecycleMsg".to_string()
            ),
            (
                "StoragePoolEventRefreshMsg".to_string(),
                "RemoteStoragePoolEventRefreshMsg".to_string()
            ),
        ]
    );
    assert_eq!(
        msg_methods("Qemu", &models),
        vec![(
            "DomainMonitorEventMsg".to_string(),
            "QemuDomainMonitorEventMsg".to_string()
        )]
    );
    assert_eq!(msg_methods("Lxc", &models), vec![]);
}

#[test]
fn string_order() {
    assert!(str_lt("a", "b"));
    assert!(str_lt("ab", "abc"));
    assert!(!str_lt("abc", "ab"));
    assert!(!str_lt("abc", "abc"));
    assert!(str_lt("", "a"));
    assert!(str_lt("Z", "a"));
    for (a, b) in [("x", "y"), ("é", "z"), ("Remote", "RemoteA"), ("b", "a")] {
        assert_eq!(str_lt(a, b), a < b);
    }
}

#[test]
fn prefixes_and_suffixes() {
    assert_eq!(strip_prefix("RemoteProcX", "RemoteProc"), Some("X".to_string()));
    assert_eq!(strip_prefix("Remote", "RemoteProc"), None);
    assert_eq!(strip_prefix("abc", ""), Some("abc".to_string()));
    assert!(ends_with("EventMsg", "Msg"));
    assert!(!ends_with("Ms", "Msg"));
}

#[test]
fn method_shapes() {
    assert_eq!(arg_shape(None, false), ArgShape::NoArgs);
    assert_eq!(arg_shape(Some("RemoteConnectOpenArgs"), false), ArgShape::Fields);
    assert_eq!(arg_shape(Some("RemoteConnectOpenArgs"), true), ArgShape::Whole);
    assert_eq!(
        arg_shape(Some("RemoteDomainMigratePerform3Args"), false),
        ArgShape::Whole
    );
    assert_eq!(reply_type(None, false, true, 0), ReplyType::Stream);
    assert_eq!(reply_type(None, false, false, 0), ReplyType::Unit);
    assert_eq!(reply_type(Some("RemoteNodeGetInfoRet"), false, false, 8), ReplyType::Whole);
    assert_eq!(reply_type(Some("RemoteAuthListRet"), false, false, 1), ReplyType::Single);
    assert_eq!(reply_type(Some("RemoteX"), false, false, 2), ReplyType::Tuple);
    assert_eq!(reply_step(Some("RemoteNodeGetInfoRet"), false, true, 8), ReplyStep::Whole);
    assert_eq!(reply_step(Some("RemoteX"), false, true, 2), ReplyStep::StreamWithBody);
    assert_eq!(reply_step(None, false, true, 0), ReplyStep::StreamWithoutBody);
    assert_eq!(reply_step(Some("RemoteX"), false, false, 2), ReplyStep::Tuple);
    assert_eq!(reply_step(Some("RemoteX"), false, false, 1), ReplyStep::Single);
    assert_eq!(reply_step(None, false, false, 0), ReplyStep::Unit);
}
