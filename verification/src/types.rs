//! The values that the backup manager hands out.

use vstd::prelude::*;

verus! {

/// What a fresh backup looks like: its name, where it lies, how large it is
/// and when it was made.
#[derive(Clone, Debug, PartialEq, Eq)]
pub struct BackupResult {
    pub filename: String,
    pub path: String,
    pub file_size: u64,
    pub created_at: String,
}

pub struct BackupResultView {
    pub filename: Seq<char>,
    pub path: Seq<char>,
    pub file_size: u64,
    pub created_at: Seq<char>,
}

impl View for BackupResult {
    type V = BackupResultView;

    open spec fn view(&self) -> BackupResultView {
        BackupResultView {
            filename: self.filename@,
            path: self.path@,
            file_size: self.file_size,
            created_at: self.created_at@,
        }
    }
}

/// One backup file as a listing shows it.
#[derive(Clone, Debug, PartialEq, Eq)]
pub struct BackupFileInfo {
    pub filename: String,
    pub path: String,
    pub file_size: u64,
    pub modified_at: String,
}

pub struct BackupFileInfoView {
    pub filename: Seq<char>,
    pub path: Seq<char>,
    pub file_size: u64,
    pub modified_at: Seq<char>,
}

impl View for BackupFileInfo {
    type V = BackupFileInfoView;

    open spec fn view(&self) -> BackupFileInfoView {
        BackupFileInfoView {
            filename: self.filename@,
            path: self.path@,
            file_size: self.file_size,
            modified_at: self.modified_at@,
        }
    }
}

impl DeepView for BackupFileInfo {
    type V = BackupFileInfoView;

    open spec fn deep_view(&self) -> BackupFileInfoView {
        self@
    }
}

/// The kinds of failure of the backup manager.
#[derive(Clone, Copy, Debug, PartialEq, Eq, Structural)]
pub enum ErrorKind {
    /// The configuration directory could not be determined.
    PathResolution,
    /// The file system refused a copy, a removal or the making of a
    /// directory.
    Io,
    /// A file that was named does not exist.
    NotFound,
    /// A file that was named is not a backup file.
    InvalidInput,
}

/// A failure: its kind, and a message for the user.
#[derive(Clone, Debug, PartialEq, Eq)]
pub struct BackupError {
    pub kind: ErrorKind,
    pub message: String,
}

pub struct BackupErrorView {
    pub kind: ErrorKind,
    pub message: Seq<char>,
}

impl View for BackupError {
    type V = BackupErrorView;

    open spec fn view(&self) -> BackupErrorView {
        BackupErrorView { kind: self.kind, message: self.message@ }
    }
}

} // verus!
