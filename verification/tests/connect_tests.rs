use libvirt_remote::binding::RemoteAuthType;
use libvirt_remote::connect::{
    auth_step, connection_name, open_flags, split_scheme, tcp_address, transport_of,
    unix_socket_path, AuthStep, Transport,
};
use libvirt_remote::locale::{lang_tag, select_locale};

#[test]
fn scheme_splits_at_first_plus() {
    assert_eq!(split_scheme("qemu+unix"), ("qemu".to_string(), "unix".to_string()));
    assert_eq!(split_scheme("a+b+c"), ("a".to_string(), "b+c".to_string()));
    assert_eq!(split_scheme("+tcp"), ("".to_string(), "tcp".to_string()));
}

#[test]
fn transports() {
    assert_eq!(transport_of("tcp"), Some(Transport::Tcp));
    assert_eq!(transport_of("unix"), Some(Transport::Unix));
    assert_eq!(transport_of("ssh"), None);
}

#[test]
fn names_and_addresses() {
    assert_eq!(connection_name("qemu", "/system"), "qemu:///system");
    assert_eq!(tcp_address(None, None), "127.0.0.1:16509");
    assert_eq!(tcp_address(Some("example.org"), Some(1234)), "example.org:1234");
    assert_eq!(unix_socket_path(None), "/var/run/libvirt/libvirt-sock");
    assert_eq!(unix_socket_path(Some("/tmp/s".to_string())), "/tmp/s");
    assert_eq!(open_flags(true), 1);
    assert_eq!(open_flags(false), 0);
}

#[test]
fn authentication_steps() {
    assert_eq!(auth_step(&vec![]), AuthStep::Nothing);
    assert_eq!(auth_step(&vec![RemoteAuthType::RemoteAuthNone]), AuthStep::Nothing);
    assert_eq!(
        auth_step(&vec![RemoteAuthType::RemoteAuthPolkit, RemoteAuthType::RemoteAuthSasl]),
        AuthStep::Polkit
    );
    assert_eq!(
        auth_step(&vec![RemoteAuthType::RemoteAuthSasl, RemoteAuthType::RemoteAuthNone]),
        AuthStep::NotSupported
    );
}

#[test]
fn locale_choice() {
    let avail = vec!["en-US".to_string(), "ja-JP".to_string()];
    assert_eq!(select_locale(&vec!["ja-JP".to_string()], &avail), Some(1));
    assert_eq!(
        select_locale(&vec!["fr-FR".to_string(), "en-US".to_string()], &avail),
        Some(0)
    );
    assert_eq!(select_locale(&vec!["fr-FR".to_string()], &avail), None);
    assert_eq!(select_locale(&vec![], &avail), None);
}

#[test]
fn lang_tags() {
    assert_eq!(lang_tag("ja_JP.UTF-8"), "ja_JP");
    assert_eq!(lang_tag("C"), "C");
    assert_eq!(lang_tag(""), "");
    assert_eq!(lang_tag(".x"), "");
}
