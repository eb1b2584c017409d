//! The error taxonomy of the core. Every fatal condition a request can end
//! in is one of these variants; the shell maps each to a plain-text HTTP 400
//! carrying the rendered message.

use vstd::prelude::*;

verus! {

/// A fatal error of a core operation.
#[derive(Debug, Clone, PartialEq, Eq)]
pub enum Error {
    /// The repository (or another named thing) is not known.
    NotFound,
    /// A repository was created under a name that already has a handle.
    AlreadyExists,
    /// Invalid ref, locator or protocol input; the message names the offender.
    Malformed { message: String },
    /// A batch write was handed sequences that are empty or of unequal
    /// length; the message names the refused operation.
    InvalidBatch { message: String },
    /// A transient transport failure surfaced by the ledger.
    UpstreamUnavailable { message: String },
    /// A ledger write ran out of attempts.
    LedgerWriteFailed { message: String },
    /// A blob download ran out of strategies and rounds.
    DownloadFailed,
    /// A blob upload ran out of attempts.
    UploadFailed { message: String },
    /// A write was accepted but not observable afterwards; the field names
    /// the ref that could not be seen.
    VerificationFailed { name: String },
    /// The advertised service is neither upload-pack nor receive-pack.
    UnknownService { service: String },
    /// A requested object hash is absent from the ledger.
    NotOurRef { hash: String },
    /// Upload-pack was asked of a repository with no refs at all.
    EmptyRepository,
    /// The Git executable failed; the message carries its standard error.
    SubprocessFailed { message: String },
}

/// The mathematical shadow of an [`Error`].
pub enum ErrorV {
    NotFound,
    AlreadyExists,
    Malformed { message: Seq<char> },
    InvalidBatch { message: Seq<char> },
    UpstreamUnavailable { message: Seq<char> },
    LedgerWriteFailed { message: Seq<char> },
    DownloadFailed,
    UploadFailed { message: Seq<char> },
    VerificationFailed { name: Seq<char> },
    UnknownService { service: Seq<char> },
    NotOurRef { hash: Seq<char> },
    EmptyRepository,
    SubprocessFailed { message: Seq<char> },
}

impl View for Error {
    type V = ErrorV;

    open spec fn view(&self) -> ErrorV {
        match self {
            Error::NotFound => ErrorV::NotFound,
            Error::AlreadyExists => ErrorV::AlreadyExists,
            Error::Malformed { message } => ErrorV::Malformed { message: message@ },
            Error::InvalidBatch { message } => ErrorV::InvalidBatch { message: message@ },
            Error::UpstreamUnavailable { message } => ErrorV::UpstreamUnavailable {
                message: message@,
            },
            Error::LedgerWriteFailed { message } => ErrorV::LedgerWriteFailed {
                message: message@,
            },
            Error::DownloadFailed => ErrorV::DownloadFailed,
            Error::UploadFailed { message } => ErrorV::UploadFailed { message: message@ },
            Error::VerificationFailed { name } => ErrorV::VerificationFailed { name: name@ },
            Error::UnknownService { service } => ErrorV::UnknownService { service: service@ },
            Error::NotOurRef { hash } => ErrorV::NotOurRef { hash: hash@ },
            Error::EmptyRepository => ErrorV::EmptyRepository,
            Error::SubprocessFailed { message } => ErrorV::SubprocessFailed {
                message: message@,
            },
        }
    }
}

impl Error {
    /// The plain text a response carries for this error.
    pub open spec fn spec_message(self) -> Seq<char> {
        match self {
            Error::NotFound => "Repository not found"@,
            Error::AlreadyExists => "Repository already exists"@,
            Error::Malformed { message } => message@,
            Error::InvalidBatch { message } => message@,
            Error::UpstreamUnavailable { message } => message@,
            Error::LedgerWriteFailed { message } => message@,
            Error::DownloadFailed => "Failed to download from IPFS after all attempts"@,
            Error::UploadFailed { message } => message@,
            Error::VerificationFailed { name } =>
                "Failed to verify ref was stored in blockchain: "@ + name@,
            Error::UnknownService { service } => "Unknown service: "@ + service@,
            Error::NotOurRef { hash } => "upload-pack: not our ref "@ + hash@,
            Error::EmptyRepository => "Repository has no refs"@,
            Error::SubprocessFailed { message } => message@,
        }
    }

    /// Renders the error as the plain text of an HTTP 400 response.
    pub fn message(&self) -> (r: String)
        ensures
            r@ =~= self.spec_message(),
    {
        match self {
            Error::NotFound => "Repository not found".to_owned(),
            Error::AlreadyExists => "Repository already exists".to_owned(),
            Error::Malformed { message } => message.clone(),
            Error::InvalidBatch { message } => message.clone(),
            Error::UpstreamUnavailable { message } => message.clone(),
            Error::LedgerWriteFailed { message } => message.clone(),
            Error::DownloadFailed =>
                "Failed to download from IPFS after all attempts".to_owned(),
            Error::UploadFailed { message } => message.clone(),
            Error::VerificationFailed { name } => {
                let mut out = "Failed to verify ref was stored in blockchain: ".to_owned();
                out.append(name.as_str());
                out
            },
            Error::UnknownService { service } => {
                let mut out = "Unknown service: ".to_owned();
                out.append(service.as_str());
                out
            },
            Error::NotOurRef { hash } => {
                let mut out = "upload-pack: not our ref ".to_owned();
                out.append(hash.as_str());
                out
            },
            Error::EmptyRepository => "Repository has no refs".to_owned(),
            Error::SubprocessFailed { message } => message.clone(),
        }
    }
}

} // verus!
