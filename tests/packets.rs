use yas::packet::{LockRspData, ScanRspData};

#[test]
fn responses() {
    let ok = LockRspData::new(Ok(()));
    assert!(ok.success);
    assert_eq!(ok.message, "");
    let err = LockRspData::new(Err(String::from("boom")));
    assert!(!err.success);
    assert_eq!(err.message, "boom");
    let scan = ScanRspData::new(Ok(String::from("{}")));
    assert!(scan.success);
    assert_eq!(scan.good_json, "{}");
    let failed = ScanRspData::new(Err(String::from("no")));
    assert!(!failed.success);
    assert_eq!(failed.good_json, "");
}
