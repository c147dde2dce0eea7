use vstd::prelude::*;

verus! {

/// The errors a service reports.
#[derive(Debug)]
pub enum ServiceError {
    /// An error the node reports, or the service itself, with its code.
    FiscoBcosError { code: i32, message: String },
    /// The transport that carries requests to the node failed.
    NetworkError(String),
    /// A contract's ABI could not be loaded, compiled, or used to encode or
    /// decode.
    AbiError(String),
    /// The signing account could not be loaded.
    AccountError(String),
    /// A transaction could not be built or signed.
    TransactionError(String),
}

} // verus!
