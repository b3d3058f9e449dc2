//! The words in which the backup manager and its caller talk: what is asked
//! for, what is to be done on the file system, and how that went.

use crate::listing::{DirEntry, DirEntryView};
use crate::types::{
    BackupError, BackupErrorView, BackupFileInfo, BackupFileInfoView, BackupResult,
    BackupResultView,
};
use vstd::prelude::*;

verus! {

/// A place on the file system, named by its role. The caller knows the path
/// that belongs to each.
#[derive(Clone, Debug, PartialEq, Eq)]
pub enum Location {
    /// The live database file, `motormods.db` in the configuration
    /// directory.
    Database,
    /// The directory `backups` in the configuration directory.
    BackupsDir,
    /// The file of this name in the backup directory.
    Backup(String),
    /// The file at this path, wherever it lies.
    External(String),
}

pub enum LocationView {
    Database,
    BackupsDir,
    Backup(Seq<char>),
    External(Seq<char>),
}

impl View for Location {
    type V = LocationView;

    open spec fn view(&self) -> LocationView {
        match self {
            Location::Database => LocationView::Database,
            Location::BackupsDir => LocationView::BackupsDir,
            Location::Backup(name) => LocationView::Backup(name@),
            Location::External(path) => LocationView::External(path@),
        }
    }
}

/// What the backup manager is asked to do.
#[derive(Clone, Debug, PartialEq, Eq)]
pub enum Request {
    BackupDatabase,
    ListBackups,
    RestoreDatabase { backup_filename: String },
    ImportBackup { source_path: String },
    ExportBackup { backup_filename: String, destination_path: String },
    DeleteBackup { backup_filename: String },
    GetBackupsPath,
}

pub enum RequestView {
    BackupDatabase,
    ListBackups,
    RestoreDatabase { backup_filename: Seq<char> },
    ImportBackup { source_path: Seq<char> },
    ExportBackup { backup_filename: Seq<char>, destination_path: Seq<char> },
    DeleteBackup { backup_filename: Seq<char> },
    GetBackupsPath,
}

impl View for Request {
    type V = RequestView;

    open spec fn view(&self) -> RequestView {
        match self {
            Request::BackupDatabase => RequestView::BackupDatabase,
            Request::ListBackups => RequestView::ListBackups,
            Request::RestoreDatabase { backup_filename } => RequestView::RestoreDatabase {
                backup_filename: backup_filename@,
            },
            Request::ImportBackup { source_path } => RequestView::ImportBackup {
                source_path: source_path@,
            },
            Request::ExportBackup { backup_filename, destination_path } => {
                RequestView::ExportBackup {
                    backup_filename: backup_filename@,
                    destination_path: destination_path@,
                }
            },
            Request::DeleteBackup { backup_filename } => RequestView::DeleteBackup {
                backup_filename: backup_filename@,
            },
            Request::GetBackupsPath => RequestView::GetBackupsPath,
        }
    }
}

/// How an operation ended.
#[derive(Clone, Debug, PartialEq, Eq)]
pub enum Outcome {
    /// A backup was made.
    Backup(BackupResult),
    /// The backups that exist, newest first.
    Listing(Vec<BackupFileInfo>),
    /// The operation was carried out; the message says what was done.
    Message(String),
    /// The path of the backup directory.
    Path(String),
    /// The operation failed.
    Error(BackupError),
}

pub enum OutcomeView {
    Backup(BackupResultView),
    Listing(Seq<BackupFileInfoView>),
    Message(Seq<char>),
    Path(Seq<char>),
    Error(BackupErrorView),
}

impl View for Outcome {
    type V = OutcomeView;

    open spec fn view(&self) -> OutcomeView {
        match self {
            Outcome::Backup(result) => OutcomeView::Backup(result@),
            Outcome::Listing(lines) => OutcomeView::Listing(lines.deep_view()),
            Outcome::Message(text) => OutcomeView::Message(text@),
            Outcome::Path(path) => OutcomeView::Path(path@),
            Outcome::Error(error) => OutcomeView::Error(error@),
        }
    }
}

/// What the caller is to do next.
#[derive(Clone, Debug, PartialEq, Eq)]
pub enum Action {
    /// Ask the application for its configuration directory.
    FindConfigDir,
    /// Tell whether something exists at the location.
    Probe(Location),
    /// Make the directory, and those above it that are missing.
    CreateDir(Location),
    /// Tell the path of the location.
    Resolve(Location),
    /// Copy the bytes of one file to another, which is replaced if it
    /// exists.
    Copy { from: Location, to: Location },
    /// Tell the size of the file in bytes.
    Measure(Location),
    /// Read the entries of the directory.
    ReadDir(Location),
    /// Remove the file.
    Remove(Location),
    /// Nothing more: the operation has ended.
    Finish(Outcome),
}

pub enum ActionView {
    FindConfigDir,
    Probe(LocationView),
    CreateDir(LocationView),
    Resolve(LocationView),
    Copy { from: LocationView, to: LocationView },
    Measure(LocationView),
    ReadDir(LocationView),
    Remove(LocationView),
    Finish(OutcomeView),
}

impl View for Action {
    type V = ActionView;

    open spec fn view(&self) -> ActionView {
        match self {
            Action::FindConfigDir => ActionView::FindConfigDir,
            Action::Probe(at) => ActionView::Probe(at@),
            Action::CreateDir(at) => ActionView::CreateDir(at@),
            Action::Resolve(at) => ActionView::Resolve(at@),
            Action::Copy { from, to } => ActionView::Copy { from: from@, to: to@ },
            Action::Measure(at) => ActionView::Measure(at@),
            Action::ReadDir(at) => ActionView::ReadDir(at@),
            Action::Remove(at) => ActionView::Remove(at@),
            Action::Finish(outcome) => ActionView::Finish(outcome@),
        }
    }
}

/// How the action that was asked for went.
#[derive(Clone, Debug, PartialEq, Eq)]
pub enum Event {
    /// Nothing was asked for yet: the operation is to begin.
    Start,
    /// The action was carried out and has nothing to tell.
    Done,
    /// The action failed; the text is the system's own account of it.
    Failed(String),
    /// Whether something exists at the location.
    Present(bool),
    /// The path of the location.
    Path(String),
    /// The size of the file in bytes.
    Size(u64),
    /// The entries of the directory that could be read.
    Entries(Vec<DirEntry>),
}

pub enum EventView {
    Start,
    Done,
    Failed(Seq<char>),
    Present(bool),
    Path(Seq<char>),
    Size(u64),
    Entries(Seq<DirEntryView>),
}

impl View for Event {
    type V = EventView;

    open spec fn view(&self) -> EventView {
        match self {
            Event::Start => EventView::Start,
            Event::Done => EventView::Done,
            Event::Failed(detail) => EventView::Failed(detail@),
            Event::Present(present) => EventView::Present(*present),
            Event::Path(path) => EventView::Path(path@),
            Event::Size(size) => EventView::Size(*size),
            Event::Entries(entries) => EventView::Entries(entries.deep_view()),
        }
    }
}

/// How far an operation has come: what was asked of the caller last.
#[derive(Clone, Copy, Debug, PartialEq, Eq, Structural)]
pub enum Phase {
    /// Nothing was asked for yet.
    Idle,
    /// The configuration directory is being looked up.
    FindingConfigDir,
    /// Whether the backup directory exists.
    ProbingBackupsDir,
    /// The backup directory is being made.
    CreatingBackupsDir,
    /// Whether the file that the operation reads exists.
    ProbingSource,
    /// Whether there is a live database to protect.
    ProbingDatabase,
    /// The live database is being copied to a safety backup.
    Protecting,
    /// The path of a file or directory is being told.
    Resolving,
    /// The operation's own copy is under way.
    Copying,
    /// The new backup is being measured.
    Measuring,
    /// The backup directory is being read.
    Reading,
    /// A backup is being removed.
    Removing,
    /// The operation has ended.
    Finished,
}

/// An operation under way: the request, how far it has come, and what it
/// has learnt so far.
#[derive(Clone, Debug, PartialEq, Eq)]
pub struct Session {
    pub request: Request,
    pub phase: Phase,
    /// The name of the file that the operation makes in the backup
    /// directory, once it is known; empty before.
    pub filename: String,
    /// The path of that file, once it is known; empty before.
    pub path: String,
}

pub struct SessionView {
    pub request: RequestView,
    pub phase: Phase,
    pub filename: Seq<char>,
    pub path: Seq<char>,
}

impl View for Session {
    type V = SessionView;

    open spec fn view(&self) -> SessionView {
        SessionView {
            request: self.request@,
            phase: self.phase,
            filename: self.filename@,
            path: self.path@,
        }
    }
}

/// What the clock said during one step of an operation. A reading that the
/// step did not ask for is empty.
#[derive(Clone, Debug, PartialEq, Eq)]
pub struct Readings {
    /// The local time as a stamp for a file name.
    pub stamp: String,
    /// The local time in RFC 3339.
    pub now: String,
    /// The times of modification of the entries of a directory, in RFC 3339,
    /// each at its entry's position.
    pub modified: Vec<Option<String>>,
}

pub struct ReadingsView {
    pub stamp: Seq<char>,
    pub now: Seq<char>,
    pub modified: Seq<Option<Seq<char>>>,
}

impl View for Readings {
    type V = ReadingsView;

    open spec fn view(&self) -> ReadingsView {
        ReadingsView {
            stamp: self.stamp@,
            now: self.now@,
            modified: self.modified.deep_view(),
        }
    }
}

} // verus!
