use vstd::prelude::*;
use vstd::string::StringExecFns;

verus! {

/// A request to scan, with the command line to scan with.
#[derive(Debug)]
pub struct ScanReqData {
    pub argv: Vec<String>,
}

/// The answer to a scan request: the export on success, the reason on
/// failure.
#[derive(Debug)]
pub struct ScanRspData {
    pub success: bool,
    pub message: String,
    pub good_json: String,
}

/// A request to toggle locks: a command line and either indices to flip or
/// a lock instruction payload.
#[derive(Debug)]
pub struct LockReqData {
    pub argv: Vec<String>,
    pub indices: Option<Vec<u32>>,
    pub lock_json: Option<String>,
}

/// The answer to a lock request.
#[derive(Debug)]
pub struct LockRspData {
    pub success: bool,
    pub message: String,
}

impl ScanRspData {
    /// The answer for a scan that exported `Ok(json)` or failed with
    /// `Err(message)`.
    pub fn new(result: Result<String, String>) -> (r: ScanRspData)
        ensures
            result matches Ok(j) ==> r.success && r.message@.len() == 0 && r.good_json@ == j@,
            result matches Err(m) ==> !r.success && r.message@ == m@ && r.good_json@.len() == 0,
    {
        proof {
            reveal_strlit("");
        }
        match result {
            Ok(j) => ScanRspData { success: true, message: String::from_str(""), good_json: j },
            Err(m) => ScanRspData { success: false, message: m, good_json: String::from_str("") },
        }
    }
}

impl LockRspData {
    /// The answer for a lock run that succeeded or failed with `Err(message)`.
    pub fn new(result: Result<(), String>) -> (r: LockRspData)
        ensures
            result is Ok ==> r.success && r.message@.len() == 0,
            result matches Err(m) ==> !r.success && r.message@ == m@,
    {
        proof {
            reveal_strlit("");
        }
        match result {
            Ok(()) => LockRspData { success: true, message: String::from_str("") },
            Err(m) => LockRspData { success: false, message: m },
        }
    }
}

} // verus!
