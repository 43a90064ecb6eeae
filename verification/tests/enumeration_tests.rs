use devenum::enumerate::{
    classify_enum_status, enumeration_step, loop_exit_code, EntryData, EnumError, EnumEvent,
    Snapshot, StepAction, NO_MORE_ITEMS,
};

fn entry(guid: u128, name: Option<&[u8]>, desc: Option<&[u8]>) -> EntryData {
    EntryData {
        class_guid: guid,
        name_buf: name.map(|b| b.to_vec()),
        desc_buf: desc.map(|b| b.to_vec()),
    }
}

#[test]
fn sentinel_code_reads_as_no_more_items() {
    let e = classify_enum_status(NO_MORE_ITEMS, String::from("whatever text"));
    assert!(matches!(e, EnumError::NoMoreItems));
}

#[test]
fn other_codes_keep_code_and_message() {
    let e = classify_enum_status(0x8007_0005, String::from("Access is denied."));
    match e {
        EnumError::Other { code, message } => {
            assert_eq!(code, 0x8007_0005);
            assert_eq!(message, "Access is denied.");
        }
        EnumError::NoMoreItems => panic!("a real error must not read as exhaustion"),
    }
}

#[test]
fn only_the_sentinel_exits_with_zero() {
    let exhausted = classify_enum_status(NO_MORE_ITEMS, String::new());
    assert_eq!(loop_exit_code(&exhausted), 0);
    for code in [0u32, 1, 0x8007_0102, 0x8007_0104, 0x8000_4005] {
        let e = classify_enum_status(code, String::from("boom"));
        assert_eq!(loop_exit_code(&e), 1);
    }
}

#[test]
fn next_entry_walks_entries_then_exhausts() {
    let snapshot = Snapshot {
        entries: vec![entry(1, Some(b"a"), None), entry(2, None, Some(b"b"))],
    };
    assert!(matches!(snapshot.next_entry(0), Ok(e) if e.class_guid == 1));
    assert!(matches!(snapshot.next_entry(1), Ok(e) if e.class_guid == 2));
    assert!(matches!(
        snapshot.next_entry(2),
        Err(EnumError::NoMoreItems)
    ));
    assert!(matches!(
        snapshot.next_entry(1000),
        Err(EnumError::NoMoreItems)
    ));
}

#[test]
fn empty_snapshot_exhausts_at_once() {
    let snapshot = Snapshot { entries: Vec::new() };
    assert!(matches!(
        snapshot.next_entry(0),
        Err(EnumError::NoMoreItems)
    ));
    assert!(snapshot.report_all().is_empty());
}

#[test]
fn report_all_renders_one_block_per_entry() {
    let snapshot = Snapshot {
        entries: vec![
            entry(0, None, None),
            entry(7, Some(b"Mouse\0\0"), Some(b"HID mouse\0")),
        ],
    };
    let blocks = snapshot.report_all();
    assert_eq!(blocks.len(), 2);
    assert!(blocks[0].contains("Dev Name: Unknown"));
    assert!(blocks[0].contains("GUID: 0\n"));
    assert!(blocks[1].contains("Dev Name: Mouse"));
    assert!(blocks[1].contains("Dev Desc: HID mouse"));
    assert!(blocks[1].contains("GUID: 7\n"));
    assert!(blocks[1].contains("GUID (hex): 0x7\n"));
}

#[test]
fn step_prints_a_found_entry() {
    let event = EnumEvent::Found(entry(3, Some(b"Keyboard\0"), None));
    match enumeration_step(&event) {
        StepAction::Print(block) => {
            assert!(block.contains("Dev Name: Keyboard"));
            assert!(block.contains("Dev Desc: None"));
            assert!(block.contains("GUID: 3\n"));
        }
        _ => panic!("a found entry must be printed"),
    }
}

#[test]
fn step_finishes_cleanly_on_the_sentinel() {
    let event = EnumEvent::Failed {
        code: NO_MORE_ITEMS,
        message: String::from("No more data is available."),
    };
    assert!(matches!(
        enumeration_step(&event),
        StepAction::FinishSuccess
    ));
}

#[test]
fn step_fails_on_any_other_code() {
    let event = EnumEvent::Failed {
        code: 0x8007_0002,
        message: String::from("The system cannot find the file specified."),
    };
    match enumeration_step(&event) {
        StepAction::FinishFailure(line) => {
            assert_eq!(
                line,
                "Error occurred: The system cannot find the file specified."
            );
        }
        _ => panic!("a real error must end the run with a diagnostic"),
    }
}
