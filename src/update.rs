use vstd::prelude::*;

verus! {

/// Where a check for a new version of the application stands.
#[derive(Debug, Clone)]
pub enum UpdateStatus {
    Checking,
    Available { version: String },
    NotAvailable,
    Downloading { progress: u64, total: u64 },
    Ready,
    Error(String),
}

} // verus!
