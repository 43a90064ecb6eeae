use devenum::enumerate::{EntryData, Snapshot};
use devenum::privilege::{privilege_check, TokenProbe};
use devenum::run::{platform_gate, privilege_gate, run_model, snapshot_gate, HostModel};

fn probe(open: bool, query: bool, flag: u32) -> TokenProbe {
    TokenProbe {
        open_succeeded: open,
        query_succeeded: query,
        elevation_flag: flag,
    }
}

fn host(os: bool, token: TokenProbe, valid: bool, entries: Vec<EntryData>) -> HostModel {
    HostModel {
        os_is_windows: os,
        token,
        snapshot_valid: valid,
        snapshot: Snapshot { entries },
    }
}

#[test]
fn elevation_needs_every_step_to_succeed() {
    assert!(!privilege_check(&probe(false, false, 1)).elevated);
    assert!(!privilege_check(&probe(false, true, 1)).elevated);
    assert!(!privilege_check(&probe(true, false, 1)).elevated);
    assert!(!privilege_check(&probe(true, true, 0)).elevated);
    assert!(privilege_check(&probe(true, true, 1)).elevated);
    assert!(privilege_check(&probe(true, true, 0xffff_ffff)).elevated);
}

#[test]
fn token_is_released_exactly_once_when_acquired() {
    assert_eq!(privilege_check(&probe(true, true, 1)).releases, 1);
    assert_eq!(privilege_check(&probe(true, false, 0)).releases, 1);
    assert_eq!(privilege_check(&probe(false, true, 1)).releases, 0);
    assert_eq!(privilege_check(&probe(false, false, 0)).releases, 0);
}

#[test]
fn gates_pass_silently_and_fail_with_their_lines() {
    assert_eq!(platform_gate(true), None);
    assert_eq!(platform_gate(false), Some(String::from("OS isn't windows!")));
    assert_eq!(privilege_gate(true), None);
    assert_eq!(
        privilege_gate(false),
        Some(String::from("This program needs root priviledges"))
    );
    assert_eq!(snapshot_gate(true), None);
    assert_eq!(
        snapshot_gate(false),
        Some(String::from("Failed to get device list"))
    );
}

#[test]
fn wrong_platform_stops_the_run() {
    let h = host(false, probe(true, true, 1), true, Vec::new());
    let (lines, code) = run_model(&h);
    assert_eq!(code, 1);
    assert_eq!(lines, vec![String::from("OS isn't windows!")]);
}

#[test]
fn missing_privilege_stops_the_run() {
    let h = host(true, probe(true, true, 0), true, Vec::new());
    let (lines, code) = run_model(&h);
    assert_eq!(code, 1);
    assert_eq!(
        lines,
        vec![String::from("This program needs root priviledges")]
    );
}

#[test]
fn invalid_snapshot_stops_the_run() {
    let h = host(true, probe(true, true, 1), false, Vec::new());
    let (lines, code) = run_model(&h);
    assert_eq!(code, 1);
    assert_eq!(lines, vec![String::from("Failed to get device list")]);
}

#[test]
fn full_run_prints_every_device_and_exits_zero() {
    let entries = vec![
        EntryData {
            class_guid: 0x4d36e967_e325_11ce_bfc1_08002be10318,
            name_buf: Some(b"Disk drive\0".to_vec()),
            desc_buf: Some(b"Standard disk drives\0".to_vec()),
        },
        EntryData {
            class_guid: 0,
            name_buf: None,
            desc_buf: None,
        },
    ];
    let h = host(true, probe(true, true, 1), true, entries);
    let (lines, code) = run_model(&h);
    assert_eq!(code, 0);
    assert_eq!(lines.len(), 2);
    assert_eq!(
        lines[0],
        "---------------------------\n\
         Dev Name: Disk drive\n\
         Dev Desc: Standard disk drives\n\
         GUID: 102635673738035704292817236064645219096\n\
         GUID (hex): 0x4d36e967e32511cebfc108002be10318\n\
         ---------------------------"
    );
    assert_eq!(
        lines[1],
        "---------------------------\n\
         Dev Name: Unknown\n\
         Dev Desc: None\n\
         GUID: 0\n\
         GUID (hex): 0x0\n\
         ---------------------------"
    );
}

#[test]
fn empty_enumeration_exits_zero_with_no_output() {
    let h = host(true, probe(true, true, 1), true, Vec::new());
    let (lines, code) = run_model(&h);
    assert_eq!(code, 0);
    assert!(lines.is_empty());
}
