//! The error taxonomy of the control plane. Every failure is a structured
//! value; `message` renders the human-readable text a caller is shown.
use vstd::prelude::*;

verus! {

/// A structured failure of the core. None is fatal to the process: a failed
/// start or call leaves every other server and call untouched.
#[derive(Debug)]
pub enum CoreError {
    /// The requested port could not be bound.
    BindError { port: u16, detail: String },
    /// A stop was asked of a collection with no running server.
    NotRunning { collection: String },
    /// The method token cannot be parsed as an HTTP method.
    InvalidMethod { method: String },
    /// A file-type form part's path could not be read.
    FileReadError { path: String, detail: String },
    /// The network call itself failed, or its body could not be decoded.
    TransportError { detail: String },
    /// The call was cancelled before it completed.
    Cancelled,
    /// A header could not be encoded for the wire.
    EncodingError { header: String },
}

/// The text `message` renders for each failure.
pub open spec fn spec_message(e: CoreError) -> Seq<char> {
    match e {
        CoreError::BindError { port, detail } => "failed to bind listener: "@ + detail@,
        CoreError::NotRunning { collection } => "no mock server is running for collection "@
            + collection@,
        CoreError::InvalidMethod { method } => "invalid method: "@ + method@,
        CoreError::FileReadError { path, detail } => "failed to read file "@ + path@ + ": "@
            + detail@,
        CoreError::TransportError { detail } => "request failed: "@ + detail@,
        CoreError::Cancelled => "request cancelled"@,
        CoreError::EncodingError { header } => "header cannot be encoded: "@ + header@,
    }
}

impl CoreError {
    /// The human-readable message for this failure.
    pub fn message(&self) -> (r: String)
        ensures
            r@ == spec_message(*self),
    {
        match self {
            CoreError::BindError { port: _, detail } => {
                String::from_str("failed to bind listener: ").concat(detail.as_str())
            },
            CoreError::NotRunning { collection } => {
                String::from_str("no mock server is running for collection ").concat(
                    collection.as_str(),
                )
            },
            CoreError::InvalidMethod { method } => {
                String::from_str("invalid method: ").concat(method.as_str())
            },
            CoreError::FileReadError { path, detail } => {
                let r = String::from_str("failed to read file ").concat(path.as_str()).concat(
                    ": ",
                ).concat(detail.as_str());
                proof {
                    assert(r@ =~= spec_message(*self));
                }
                r
            },
            CoreError::TransportError { detail } => {
                String::from_str("request failed: ").concat(detail.as_str())
            },
            CoreError::Cancelled => String::from_str("request cancelled"),
            CoreError::EncodingError { header } => {
                String::from_str("header cannot be encoded: ").concat(header.as_str())
            },
        }
    }
}

} // verus!
