//! The result of one successful upload: the link to hand back and a
//! client-side estimate of when the paste expires.
use vstd::prelude::*;

verus! {

/// A successful upload: the paste's public link and the estimated expiry as a
/// Unix timestamp in seconds. The estimate is display-only; the service may
/// expire the paste earlier or later.
#[derive(Debug)]
pub struct UploadResponse {
    pub link: String,
    pub expires: i64,
}

} // verus!
