//! The storage collaborator boundary: configuration and the passthrough
//! receipts for raw content not tied to a specific stage.
//!
//! The upload, fetch and pin calls themselves are network I/O and live with
//! the caller; this module holds the values that cross that boundary and the
//! rules that shape them.

use vstd::prelude::*;
use vstd::string::StringExecFns;

verus! {

/// Connection settings for the content-addressed storage service.
/// Credentials are attached per request and are transparent to the pipeline.
#[derive(Debug, Clone)]
pub struct IpfsConfig {
    pub api_url: String,
    pub project_id: Option<String>,
    pub project_secret: Option<String>,
}

impl IpfsConfig {
    /// Authentication is usable only when both halves of the credential are
    /// present.
    pub fn has_auth(&self) -> (r: bool)
        ensures
            r == (self.project_id is Some && self.project_secret is Some),
    {
        self.project_id.is_some() && self.project_secret.is_some()
    }
}

/// The receipt for a generic (stage-independent) upload.
#[derive(Debug)]
pub struct IpfsUploadResponse {
    pub cid: String,
    pub size: u64,
    pub pinned: bool,
}

impl IpfsUploadResponse {
    /// Assemble the upload receipt. `pinned` reflects whether a pin was
    /// requested: a requested pin that failed aborts the operation instead
    /// of producing a receipt.
    pub fn new(cid: String, size: u64, pin_requested: bool) -> (r: IpfsUploadResponse)
        ensures
            r.cid@ == cid@,
            r.size == size,
            r.pinned == pin_requested,
    {
        IpfsUploadResponse { cid, size, pinned: pin_requested }
    }
}

/// A request to pin content by address.
#[derive(Debug)]
pub struct IpfsPinRequest {
    pub cid: String,
}

/// The receipt for a pin operation.
#[derive(Debug)]
pub struct IpfsPinResponse {
    pub cid: String,
    pub pinned: bool,
}

/// The receipt for a raw upload exposed with its public gateway address.
#[derive(Debug)]
pub struct UploadResponse {
    pub cid: String,
    pub gateway_url: String,
}

/// An error payload surfaced to a caller.
#[derive(Debug)]
pub struct ErrorResponse {
    pub error: String,
}

/// The public gateway address of a content address.
pub fn gateway_url_for(cid: &str) -> (r: String)
    ensures
        r@ == "https://ipfs.io/ipfs/"@ + cid@,
{
    let mut r = "https://ipfs.io/ipfs/".to_owned();
    r.append(cid);
    r
}

} // verus!
