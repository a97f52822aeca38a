use yas::error::YasError;
use yas::lock::{LockAction, LockActionType, LockFormat, LockFormatV2, LockValidationRecord};

fn flip(t: u32) -> LockAction {
    LockAction { target: t, type_: LockActionType::Flip }
}

#[test]
fn v1_list_gives_sorted_flips() {
    let actions = LockAction::from_v1(&vec![1, 3, 5]);
    assert_eq!(actions, vec![flip(1), flip(3), flip(5)]);
    let unsorted = LockAction::from_v1(&vec![5, 1, 3]);
    assert_eq!(unsorted, vec![flip(1), flip(3), flip(5)]);
}

#[test]
fn v1_json_decodes_and_sorts() {
    let actions = LockAction::from_v1_json("[1,3,5]").unwrap();
    assert_eq!(actions, vec![flip(1), flip(3), flip(5)]);
    let spaced = LockAction::from_v1_json(" [ 5, 3 ,1 ] ").unwrap();
    assert_eq!(spaced, vec![flip(1), flip(3), flip(5)]);
}

#[test]
fn v1_json_repeated_index_conflicts() {
    assert_eq!(LockAction::from_v1_json("[2,7,2]"), Err(YasError::LockConflict(2)));
}

#[test]
fn v1_json_that_does_not_decode() {
    assert_eq!(LockAction::from_v1_json("[1,,2]"), Err(YasError::LockDecode));
    assert_eq!(LockAction::from_v1_json("[99999999999]"), Err(YasError::LockDecode));
}

#[test]
fn format_detection() {
    assert_eq!(LockAction::detect_format("[1, 3, 5]"), LockFormat::V1);
    assert_eq!(LockAction::detect_format("  []  "), LockFormat::V1);
    assert_eq!(
        LockAction::detect_format("{\"version\": 2, \"flip_indices\": []}"),
        LockFormat::V2
    );
    assert_eq!(LockAction::detect_format("{\"version\": 3}"), LockFormat::Unknown);
    assert_eq!(LockAction::detect_format("[1, a]"), LockFormat::Unknown);
}

fn v2(flip: Vec<u32>, lock: Vec<u32>, unlock: Vec<u32>, validation: Vec<LockValidationRecord>) -> LockFormatV2 {
    LockFormatV2 { version: 2, flip_indices: flip, lock_indices: lock, unlock_indices: unlock, validation }
}

#[test]
fn v2_lock_and_unlock_on_one_target_conflict() {
    let data = v2(vec![], vec![4], vec![4], vec![]);
    assert_eq!(LockAction::from_v2_checked(&data), Err(YasError::LockConflict(4)));
}

#[test]
fn v2_two_validations_on_one_target_conflict() {
    let data = v2(
        vec![],
        vec![],
        vec![],
        vec![LockValidationRecord { index: 1, locked: true }, LockValidationRecord { index: 1, locked: false }],
    );
    assert_eq!(LockAction::from_v2_checked(&data), Err(YasError::LockConflict(1)));
}

#[test]
fn v2_validation_and_click_on_one_target_is_legal() {
    let data = v2(vec![9], vec![], vec![2], vec![LockValidationRecord { index: 2, locked: true }]);
    let actions = LockAction::from_v2_checked(&data).unwrap();
    assert_eq!(
        actions,
        vec![
            LockAction { target: 2, type_: LockActionType::Unlock },
            LockAction { target: 2, type_: LockActionType::ValidateLocked },
            flip(9),
        ]
    );
}

#[test]
fn validation_mismatch_stops_before_any_toggle() {
    let actions = vec![
        LockAction { target: 2, type_: LockActionType::ValidateLocked },
        LockAction { target: 2, type_: LockActionType::Unlock },
    ];
    let locks = vec![false, false, false, false];
    assert_eq!(LockAction::plan_page(&actions, 0, 2, 0, &locks), Err(YasError::ValidationMismatch(2)));
}

#[test]
fn plan_page_skips_actions_already_in_place() {
    let actions = vec![
        LockAction { target: 10, type_: LockActionType::Lock },
        LockAction { target: 11, type_: LockActionType::Lock },
        LockAction { target: 12, type_: LockActionType::Unlock },
        LockAction { target: 13, type_: LockActionType::ValidateUnlocked },
        LockAction { target: 13, type_: LockActionType::Flip },
    ];
    let locks = vec![true, false, true, false];
    assert_eq!(LockAction::plan_page(&actions, 0, 5, 10, &locks), Ok(vec![1, 2, 3]));
}

#[test]
fn page_bounds_and_lock_reads() {
    let actions = vec![flip(1), flip(39), flip(40), LockAction { target: 45, type_: LockActionType::Lock }];
    assert_eq!(LockAction::page_end(&actions, 0, 40), 2);
    assert_eq!(LockAction::page_end(&actions, 2, 80), 4);
    assert!(!LockAction::page_needs_locks(&actions, 0, 2, false));
    assert!(LockAction::page_needs_locks(&actions, 0, 2, true));
    assert!(LockAction::page_needs_locks(&actions, 2, 4, false));
}

#[test]
fn page_scroll_amounts() {
    assert_eq!(LockAction::page_scroll(20, 0, 5, true), Some(5));
    assert_eq!(LockAction::page_scroll(12, 5, 5, true), Some(2));
    assert_eq!(LockAction::page_scroll(10, 5, 5, true), None);
    assert_eq!(LockAction::page_scroll(20, 0, 5, false), None);
}

#[test]
fn targets_beyond_inventory_are_refused() {
    let actions = vec![flip(3), flip(50)];
    assert_eq!(LockAction::check_targets(&actions, 50), Err(YasError::TargetOutOfRange(50)));
    assert_eq!(LockAction::check_targets(&actions, 51), Ok(()));
}
