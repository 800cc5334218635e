use libvirt_remote::cmd::cpu_stats::{self, cpu_count, start_out_of_range, stat_line};
use libvirt_remote::cmd::destroy::{destroy_call, destroy_flags, DestroyCall};
use libvirt_remote::cmd::iface_list::{list_flags, state_label};
use libvirt_remote::cmd::nodeinfo::to_utf8_str;
use libvirt_remote::cmd::pool_event::{
    event_id, event_names, lifecycle_message, lifecycle_name, refresh_message,
};
use libvirt_remote::cmd::qemu_agent_command::{self, agent_timeout};
use libvirt_remote::cmd::start::{start_call, start_flags, StartCall};
use libvirt_remote::cmd::version::{version_lines, version_string, VersionLine};
use libvirt_remote::cmd::vol_download::hole_chunk_len;
use libvirt_remote::cmd::vol_upload::{sparse_range, upload_chunk_len, upload_length, SparseType};

#[test]
fn version_string_unpacks_parts() {
    assert_eq!(version_string(8002001), "8.2.1");
    assert_eq!(version_string(0), "0.0.0");
    assert_eq!(version_string(10000000), "10.0.0");
    assert_eq!(version_string(1234567890), "234.567.890");
}

#[test]
fn destroy_and_start_flags() {
    assert_eq!(destroy_flags(false), 0);
    assert_eq!(destroy_flags(true), 1);
    assert_eq!(start_flags(false, false, false, false), 0);
    assert_eq!(start_flags(true, false, false, false), 1);
    assert_eq!(start_flags(false, true, false, true), 10);
    assert_eq!(start_flags(true, true, true, true), 15);
}

#[test]
fn iface_list_flags_and_labels() {
    assert_eq!(list_flags(false, false), 2);
    assert_eq!(list_flags(true, false), 1);
    assert_eq!(list_flags(false, true), 3);
    assert_eq!(list_flags(true, true), 1);
    assert_eq!(state_label(0), "Inactive");
    assert_eq!(state_label(1), "Active");
    assert_eq!(state_label(-1), "Active");
}

#[test]
fn nodeinfo_model_is_c_string() {
    let mut model = [0i8; 32];
    for (i, b) in b"Intel".iter().enumerate() {
        model[i] = *b as i8;
    }
    assert_eq!(to_utf8_str(&model).unwrap(), "Intel");
    let full = [b'x' as i8; 4];
    assert_eq!(to_utf8_str(&full).unwrap(), "xxxx");
    assert_eq!(to_utf8_str(&[]).unwrap(), "");
}

#[test]
fn nodeinfo_model_reads_utf8() {
    let bytes = "é".as_bytes();
    let model = [bytes[0] as i8, bytes[1] as i8, 0, b'z' as i8];
    assert_eq!(to_utf8_str(&model).unwrap(), "é");
}

#[test]
fn nodeinfo_model_rejects_invalid_utf8() {
    let model = [0xffu8 as i8, 0];
    assert!(to_utf8_str(&model).is_err());
}

#[test]
fn pool_events() {
    assert_eq!(event_id("lifecycle"), Some(0));
    assert_eq!(event_id("refresh"), Some(1));
    assert_eq!(event_id("other"), None);
    assert_eq!(event_names(), vec!["lifecycle".to_string(), "refresh".to_string()]);
    assert_eq!(lifecycle_name(2).as_deref(), Some("Started"));
    assert_eq!(lifecycle_name(5).as_deref(), Some("Deleted"));
    assert_eq!(lifecycle_name(6), None);
    assert_eq!(
        lifecycle_message("default", 0).as_deref(),
        Some("event 'lifecycle' for storage pool default: Defined")
    );
    assert_eq!(lifecycle_message("default", -1), None);
    assert_eq!(refresh_message("p"), "event 'refresh' for storage pool p");
}

#[test]
fn agent_timeouts() {
    assert_eq!(agent_timeout(false, false, None), -1);
    assert_eq!(agent_timeout(true, false, Some(5)), 0);
    assert_eq!(agent_timeout(false, true, Some(5)), -2);
    assert_eq!(agent_timeout(false, false, Some(30)), 30);
    assert_eq!(agent_timeout(false, false, Some(u32::MAX)), -1);
}

#[test]
fn argument_checks() {
    assert_eq!(qemu_agent_command::check_type::<u32>("42"), Ok(42));
    assert_eq!(qemu_agent_command::check_type::<u32>("+7"), Ok(7));
    assert_eq!(
        qemu_agent_command::check_type::<u32>("-1"),
        Err("-1".to_string())
    );
    assert_eq!(
        qemu_agent_command::check_type::<u32>("4294967296"),
        Err("4294967296".to_string())
    );
    assert_eq!(qemu_agent_command::check_type::<i32>("-2147483648"), Ok(i32::MIN));
    assert_eq!(
        qemu_agent_command::check_type::<i32>("2147483648"),
        Err("2147483648".to_string())
    );
    assert_eq!(qemu_agent_command::check_type::<i32>(""), Err("".to_string()));
    assert_eq!(qemu_agent_command::check_type::<i32>("+"), Err("+".to_string()));
    assert_eq!(qemu_agent_command::check_type::<i32>("1a"), Err("1a".to_string()));
    assert_eq!(cpu_stats::check_type::<i32>("-3"), Ok(()));
    assert_eq!(cpu_stats::check_type::<u32>("x"), Err("x".to_string()));
}

#[test]
fn argument_checks_agree_with_std() {
    for s in ["0", "007", "+0", "-0", "123456", "-", "", " 1", "1 ", "99999999999", "-2147483649"] {
        assert_eq!(
            qemu_agent_command::check_type::<i32>(s).ok(),
            s.parse::<i32>().ok(),
            "{s}"
        );
        assert_eq!(
            qemu_agent_command::check_type::<u32>(s).ok(),
            s.parse::<u32>().ok(),
            "{s}"
        );
    }
}

#[test]
fn cpu_stats_ranges() {
    assert!(start_out_of_range(true, 4, 4));
    assert!(!start_out_of_range(false, 4, 4));
    assert!(!start_out_of_range(true, 3, 4));
    assert_eq!(cpu_count(0, -1, 4), 4);
    assert_eq!(cpu_count(1, -1, 4), 3);
    assert_eq!(cpu_count(0, 2, 4), 2);
    assert_eq!(cpu_count(0, 9, 4), 4);
    assert_eq!(cpu_count(5, -1, 4), u32::MAX);
}

#[test]
fn cpu_stats_line() {
    assert_eq!(
        stat_line("cpu_time", 1_500_000_000),
        "\tcpu_time            1.500000000 seconds"
    );
    assert_eq!(
        stat_line("a_very_long_field", 7),
        "\ta_very_long_field        0.000000007 seconds"
    );
}

#[test]
fn download_hole_chunks() {
    assert_eq!(hole_chunk_len(10, 0), 10);
    assert_eq!(hole_chunk_len(20000, 0), 8192);
    assert_eq!(hole_chunk_len(20000, 16384), 3616);
}

#[test]
fn upload_chunks_and_length() {
    assert_eq!(upload_chunk_len(10), 10);
    assert_eq!(upload_chunk_len(300000), 262120);
    assert_eq!(upload_length(0, 99), 99);
    assert_eq!(upload_length(5, 99), 5);
}

#[test]
fn sparse_ranges() {
    assert_eq!(sparse_range(0, 100, 40, None), (SparseType::Data, 40));
    assert_eq!(sparse_range(0, 10, 40, None), (SparseType::Data, 10));
    assert_eq!(sparse_range(40, 60, 40, Some(50)), (SparseType::Hole, 10));
    assert_eq!(sparse_range(40, 5, 40, Some(50)), (SparseType::Hole, 5));
    assert_eq!(sparse_range(40, 60, 40, None), (SparseType::Hole, 60));
}

#[test]
fn cpu_stat_blocks() {
    let params = vec![
        ("cpu_time".to_string(), 1_000_000_000u64),
        ("user_time".to_string(), 2u64),
        ("system_time".to_string(), 3u64),
    ];
    assert_eq!(
        cpu_stats::cpu_blocks(&params, 2, 2),
        "CPU0:\n\tcpu_time            1.000000000 seconds\n\tuser_time           0.000000002 seconds\nCPU1:\n\tuser_time           0.000000002 seconds\n\tsystem_time         0.000000003 seconds\n"
    );
    assert_eq!(cpu_stats::cpu_blocks(&params, 0, 2), "");
    assert_eq!(
        cpu_stats::stat_lines(&params, 2, 1),
        "\tsystem_time         0.000000003 seconds\n"
    );
    assert_eq!(cpu_stats::stat_lines(&params, 0, 0), "");
}

#[test]
fn start_and_destroy_calls() {
    assert_eq!(start_call(0), StartCall::Create);
    assert_eq!(start_call(start_flags(true, false, false, true)), StartCall::CreateWithFlags(9));
    assert_eq!(destroy_call(destroy_flags(false)), DestroyCall::Destroy);
    assert_eq!(destroy_call(destroy_flags(true)), DestroyCall::DestroyFlags(1));
}

#[test]
fn version_line_choice() {
    assert_eq!(
        version_lines(true, true, true),
        vec![
            VersionLine::CompiledLibrary,
            VersionLine::UsingLibrary,
            VersionLine::UsingApi,
            VersionLine::RunningHypervisor
        ]
    );
    assert_eq!(version_lines(true, true, false), vec![VersionLine::RunningHypervisor]);
    assert_eq!(
        version_lines(false, true, true),
        vec![VersionLine::CompiledLibrary, VersionLine::UsingLibrary]
    );
    assert_eq!(version_lines(true, false, true).len(), 3);
    assert_eq!(version_lines(false, false, false), vec![]);
}
