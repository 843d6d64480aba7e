//! The two ways in which a scan fails.

use vstd::prelude::*;
use vstd::string::StringExecFns;

verus! {

/// Why a scan returned no records.
#[derive(Debug, PartialEq, Eq)]
pub enum ScanError {
    /// The path does not exist or does not designate a directory.
    NotFound { path: String },
    /// Listing the directory, or reading the metadata of an entry, failed.
    IOFailure { message: String },
}

/// A scan error as plain mathematical values.
pub enum ScanErrorView {
    NotFound { path: Seq<char> },
    IOFailure { message: Seq<char> },
}

impl View for ScanError {
    type V = ScanErrorView;

    open spec fn view(&self) -> ScanErrorView {
        match self {
            ScanError::NotFound { path } => ScanErrorView::NotFound { path: path@ },
            ScanError::IOFailure { message } => ScanErrorView::IOFailure { message: message@ },
        }
    }
}

/// The text that describes an error: for a missing directory a fixed prefix
/// and the path, for a failure the diagnostic that it carries.
pub open spec fn message_of(error: ScanErrorView) -> Seq<char> {
    match error {
        ScanErrorView::NotFound { path } => "Directory does not exist: "@ + path,
        ScanErrorView::IOFailure { message } => message,
    }
}

impl ScanError {
    /// Describes the error in words.
    pub fn message(&self) -> (text: String)
        ensures
            text@ == message_of(self@),
    {
        match self {
            ScanError::NotFound { path } => {
                let mut text = String::from_str("Directory does not exist: ");
                text.append(path.as_str());
                text
            },
            ScanError::IOFailure { message } => message.clone(),
        }
    }
}

impl Clone for ScanError {
    fn clone(&self) -> (copy: Self)
        ensures
            copy@ == self@,
    {
        match self {
            ScanError::NotFound { path } => ScanError::NotFound { path: path.clone() },
            ScanError::IOFailure { message } => ScanError::IOFailure { message: message.clone() },
        }
    }
}

} // verus!
