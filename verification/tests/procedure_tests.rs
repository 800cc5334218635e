use libvirt_remote::binding::{RemoteAuthType, RemoteProcedure, REMOTE_PROGRAM, REMOTE_PROTOCOL_VERSION};

#[test]
fn procedure_numbers() {
    assert_eq!(RemoteProcedure::RemoteProcConnectOpen.number(), 1);
    assert_eq!(RemoteProcedure::RemoteProcConnectClose.number(), 2);
    assert_eq!(RemoteProcedure::RemoteProcNodeGetInfo.number(), 6);
    assert_eq!(RemoteProcedure::RemoteProcAuthList.number(), 66);
    assert_eq!(RemoteProcedure::RemoteProcConnectGetLibVersion.number(), 157);
    assert_eq!(RemoteProcedure::RemoteProcStorageVolUpload.number(), 208);
}

#[test]
fn procedure_from_number_roundtrip() {
    for n in 0..440 {
        let p = RemoteProcedure::from_number(n).unwrap();
        assert_eq!(p.number(), n);
    }
    assert!(RemoteProcedure::from_number(440).is_none());
    assert!(RemoteProcedure::from_number(-1).is_none());
}

#[test]
fn auth_type_codes() {
    assert_eq!(RemoteAuthType::RemoteAuthNone.code(), 0);
    assert_eq!(RemoteAuthType::RemoteAuthSasl.code(), 1);
    assert_eq!(RemoteAuthType::RemoteAuthPolkit.code(), 2);
    for n in 0..3 {
        assert_eq!(RemoteAuthType::from_code(n).unwrap().code(), n);
    }
    assert!(RemoteAuthType::from_code(3).is_none());
}

#[test]
fn program_constants() {
    assert_eq!(REMOTE_PROGRAM, 0x20008086);
    assert_eq!(REMOTE_PROTOCOL_VERSION, 1);
}
