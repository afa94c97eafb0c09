//! Where captures are kept: the storage interface the actions use and the error it reports.

use vstd::prelude::*;

use crate::capture::flow::CaptureArtifact;
use crate::chars::copy_text;

verus! {

/// Why a storage operation failed, as the storage reported it.
#[derive(Debug, Clone)]
pub struct StorageError {
    pub message: String,
}

impl StorageError {
    /// The error as shown to the user.
    pub fn describe(&self) -> (s: String)
        ensures
            s@ == self.message@,
    {
        copy_text(self.message.as_str())
    }
}

/// Something that keeps captures. Implementations touch the disk, so nothing is promised
/// of what they return. Each method's result is tied to what it was handed by a relation
/// that an implementation may define (left undefined, it holds of every result), so that a
/// caller can state which capture it asked to save or discard.
pub trait CaptureStorage {
    /// `r` is what saving `artifact` came to.
    closed spec fn spec_saved(&self, artifact: CaptureArtifact, r: Result<String, StorageError>) -> bool {
        true
    }

    /// `r` is what discarding the session files of the capture `capture_id` came to.
    closed spec fn spec_discarded(&self, capture_id: Seq<char>, r: Result<(), StorageError>) -> bool {
        true
    }

    /// Saves a capture for good and returns the saved file's path.
    fn save_capture(&self, artifact: &CaptureArtifact) -> (r: Result<String, StorageError>)
        ensures
            self.spec_saved(*artifact, r),
    ;

    /// Removes what the session kept for a capture.
    fn discard_session_artifacts(&self, capture_id: &str) -> (r: Result<(), StorageError>)
        ensures
            self.spec_discarded(capture_id@, r),
    ;
}

} // verus!
