//! The state of locally cached track downloads, as stored in the local
//! database.
use vstd::prelude::*;
use vstd::string::*;
use crate::text::{clone_opt, str_eq};

verus! {

/// Where a track's local download stands.
#[derive(Debug, Clone, Copy, PartialEq, Eq, Structural)]
pub enum DownloadStatus {
    Queued,
    Downloading,
    Downloaded,
    Failed,
}

/// The name a status is stored under.
pub open spec fn status_name(s: DownloadStatus) -> Seq<char> {
    match s {
        DownloadStatus::Queued => "queued"@,
        DownloadStatus::Downloading => "downloading"@,
        DownloadStatus::Downloaded => "downloaded"@,
        DownloadStatus::Failed => "failed"@,
    }
}

/// The status a stored name stands for; unknown names read as queued.
pub open spec fn status_from_name(s: Seq<char>) -> DownloadStatus {
    if s == "downloading"@ {
        DownloadStatus::Downloading
    } else if s == "downloaded"@ {
        DownloadStatus::Downloaded
    } else if s == "failed"@ {
        DownloadStatus::Failed
    } else {
        DownloadStatus::Queued
    }
}

impl DownloadStatus {
    pub fn as_str(&self) -> (r: &'static str)
        ensures
            r@ == status_name(*self),
    {
        match self {
            DownloadStatus::Queued => "queued",
            DownloadStatus::Downloading => "downloading",
            DownloadStatus::Downloaded => "downloaded",
            DownloadStatus::Failed => "failed",
        }
    }

    pub fn from_str(s: &str) -> (r: Self)
        ensures
            r == status_from_name(s@),
    {
        if str_eq(s, "downloading") {
            DownloadStatus::Downloading
        } else if str_eq(s, "downloaded") {
            DownloadStatus::Downloaded
        } else if str_eq(s, "failed") {
            DownloadStatus::Failed
        } else {
            DownloadStatus::Queued
        }
    }
}

/// Storing a status by its name and reading the name back gives the same
/// status.
pub proof fn lemma_status_name_roundtrip(s: DownloadStatus)
    ensures
        status_from_name(status_name(s)) == s,
{
    reveal_strlit("queued");
    reveal_strlit("downloading");
    reveal_strlit("downloaded");
    reveal_strlit("failed");
    assert("queued"@.len() == 6);
    assert("downloading"@.len() == 11);
    assert("downloaded"@.len() == 10);
    assert("failed"@.len() == 6);
    assert("queued"@ != "downloading"@);
    assert("queued"@ != "downloaded"@);
    assert("queued"@[0] != "failed"@[0]);
    assert("queued"@ != "failed"@);
    assert("downloaded"@ != "downloading"@);
    assert("failed"@ != "downloading"@);
    assert("failed"@ != "downloaded"@);
}

/// Distinct statuses are stored under distinct names.
pub proof fn lemma_status_name_injective(a: DownloadStatus, b: DownloadStatus)
    ensures
        status_name(a) == status_name(b) ==> a == b,
{
    lemma_status_name_roundtrip(a);
    lemma_status_name_roundtrip(b);
}

/// One row of the local downloads table.
#[derive(Debug, Clone)]
pub struct DownloadRow {
    pub library_id: i64,
    pub track_id: i64,
    pub hash: String,
    pub status: DownloadStatus,
    pub bytes_downloaded: i64,
    pub total_bytes: i64,
    pub local_path: Option<String>,
    pub error: Option<String>,
}

impl DownloadRow {
    /// A copy of the row.
    pub fn clone_exact(&self) -> (r: Self)
        ensures
            r == *self,
    {
        DownloadRow {
            library_id: self.library_id,
            track_id: self.track_id,
            hash: self.hash.clone(),
            status: self.status,
            bytes_downloaded: self.bytes_downloaded,
            total_bytes: self.total_bytes,
            local_path: clone_opt(&self.local_path),
            error: clone_opt(&self.error),
        }
    }
}

} // verus!
