use libvirt_remote::naming::{
    capitalize, capitalize_pieces, join_words, snake_case, stream_procs, undeconstructing,
    with_underscore,
};

#[test]
fn snake_case_of_plain_camel_case() {
    assert_eq!(snake_case("ConnectOpen"), "connect_open");
    assert_eq!(snake_case("DomainLookupByName"), "domain_lookup_by_name");
}

#[test]
fn snake_case_folds_runs_of_capitals() {
    assert_eq!(snake_case("userID"), "user_id");
    assert_eq!(snake_case("DomainGetXMLDesc"), "domain_get_xmldesc");
    assert_eq!(snake_case("NodeGetCPUStats"), "node_get_cpustats");
}

#[test]
fn snake_case_digits_close_pieces() {
    assert_eq!(snake_case("DomainMigratePrepareTunnel3"), "domain_migrate_prepare_tunnel3");
    assert_eq!(snake_case("DomainGetInfo2"), "domain_get_info2");
}

#[test]
fn snake_case_edges() {
    assert_eq!(snake_case(""), "");
    assert_eq!(snake_case("a"), "a");
    assert_eq!(snake_case("A"), "a");
    assert_eq!(snake_case("already_snake"), "already_snake");
}

#[test]
fn capitalize_pieces_by_marks() {
    assert_eq!(
        capitalize_pieces("userID", &vec![true, true, true, true, false, false]),
        "userId"
    );
    assert_eq!(capitalize_pieces("ABc", &vec![false, false, true]), "Abc");
    assert_eq!(capitalize_pieces("", &vec![]), "");
}

#[test]
fn join_words_by_marks() {
    assert_eq!(
        join_words("userId", &vec![false, false, false, false, true, false]),
        "user_id"
    );
    assert_eq!(join_words("Ab", &vec![true, false]), "ab");
}

#[test]
fn capitalize_first_upper_rest_lower() {
    assert_eq!(capitalize("hELLO"), "Hello");
    assert_eq!(capitalize("ID"), "Id");
    assert_eq!(capitalize(""), "");
    assert_eq!(capitalize("1aB"), "1ab");
}

#[test]
fn with_underscore_lowers() {
    assert_eq!(with_underscore("Get"), "_get");
    assert_eq!(with_underscore(""), "_");
}

#[test]
fn stream_procedure_names() {
    assert!(stream_procs("StorageVolUpload"));
    assert!(stream_procs("StorageVolDownload"));
    assert!(stream_procs("DomainOpenChannel"));
    assert!(stream_procs("DomainMigratePrepareTunnel3"));
    assert!(stream_procs("DomainMigratePrepareTunnel3Params"));
    assert!(!stream_procs("DomainCreate"));
    assert!(!stream_procs("storagevolupload"));
}

#[test]
fn undeconstructing_records() {
    assert!(undeconstructing("RemoteNodeGetInfoRet"));
    assert!(undeconstructing("RemoteDomainGetJobInfoRet"));
    assert!(!undeconstructing("RemoteDomainGetInfoRet"));
}

#[test]
fn snake_case_twice_is_once() {
    for s in ["ConnectOpen", "userID", "DomainGetXMLDesc", "NodeGetCPUStats", "a_B_c", "X1Y2", "_Lead", ""] {
        let once = snake_case(s);
        assert_eq!(snake_case(&once), once, "{s}");
    }
}

#[test]
fn snake_case_leading_capital() {
    assert_eq!(snake_case("NodeGetInfo"), "node_get_info");
    assert_eq!(snake_case("DomainMigratePrepareTunnel3"), "domain_migrate_prepare_tunnel3");
}
