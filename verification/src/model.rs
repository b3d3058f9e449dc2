//! A model of the files that the backup manager works on, and of a caller
//! that carries out every action on them faithfully. It exists only in
//! proofs: the laws of the manager are stated over it.
//!
//! The model takes each location for a file of its own: two locations never
//! name the same file.

use crate::listing::{DirEntryView, FileMetadata, Timestamp};
use crate::manager::next;
use crate::protocol::{
    ActionView, EventView, LocationView, OutcomeView, Phase, ReadingsView, RequestView,
    SessionView,
};
use vstd::prelude::*;

verus! {

/// The files as the manager can see them.
pub struct Disk {
    /// Why the configuration directory cannot be told, if it cannot.
    pub lookup_failure: Option<Seq<char>>,
    /// The backup directory exists.
    pub has_backups_dir: bool,
    /// The files that exist, each with its bytes.
    pub files: Map<LocationView, Seq<u8>>,
    /// The names of the files in the backup directory, in the order in
    /// which the directory gives them.
    pub order: Seq<Seq<char>>,
    /// When each file of the backup directory was last modified, where
    /// that is known.
    pub times: Map<Seq<char>, Timestamp>,
    /// The path of each location.
    pub path_of: spec_fn(LocationView) -> Seq<char>,
    /// What the system says when an action fails.
    pub trouble: Seq<char>,
}

impl Disk {
    /// The directory's order names exactly the files that exist in it, each
    /// once; files exist only at files' locations, and in the backup
    /// directory only if it exists; every size fits the machine.
    pub open spec fn well_formed(self) -> bool {
        &&& self.order.no_duplicates()
        &&& forall|name: Seq<char>| #[trigger]
            self.order.contains(name) <==> self.files.contains_key(LocationView::Backup(name))
        &&& !self.files.contains_key(LocationView::BackupsDir)
        &&& !self.has_backups_dir ==> self.order.len() == 0
        &&& forall|at: LocationView| #[trigger]
            self.files.contains_key(at) ==> self.files[at].len() <= u64::MAX
    }

    /// Something exists at the location.
    pub open spec fn holds(self, at: LocationView) -> bool {
        match at {
            LocationView::BackupsDir => self.has_backups_dir,
            _ => self.files.contains_key(at),
        }
    }

    /// The location can take a file.
    pub open spec fn takes(self, at: LocationView) -> bool {
        match at {
            LocationView::BackupsDir => false,
            LocationView::Backup(name) => self.has_backups_dir,
            _ => true,
        }
    }

    /// The disk with `bytes` written to the file at `at`.
    pub open spec fn with_file(self, at: LocationView, bytes: Seq<u8>) -> Disk {
        Disk {
            files: self.files.insert(at, bytes),
            order: match at {
                LocationView::Backup(name) => if self.order.contains(name) {
                    self.order
                } else {
                    self.order.push(name)
                },
                _ => self.order,
            },
            ..self
        }
    }

    /// The disk without the file at `at`.
    pub open spec fn without_file(self, at: LocationView) -> Disk {
        Disk {
            files: self.files.remove(at),
            order: match at {
                LocationView::Backup(name) => self.order.remove_value(name),
                _ => self.order,
            },
            ..self
        }
    }

    /// The disk with the backup directory in place.
    pub open spec fn with_backups_dir(self) -> Disk {
        Disk { has_backups_dir: true, ..self }
    }

    /// The entry of the backup directory for the file `name`.
    pub open spec fn entry(self, name: Seq<char>) -> DirEntryView {
        DirEntryView {
            filename: name,
            path: (self.path_of)(LocationView::Backup(name)),
            metadata: Some(
                FileMetadata {
                    file_size: self.files[LocationView::Backup(name)].len() as u64,
                    modified: if self.times.contains_key(name) {
                        Some(self.times[name])
                    } else {
                        None
                    },
                },
            ),
        }
    }

    /// The entries of the backup directory, in the directory's order.
    pub open spec fn entries(self) -> Seq<DirEntryView> {
        Seq::new(self.order.len(), |i: int| self.entry(self.order[i]))
    }

    /// The action carried out: the disk afterwards, and the account of it.
    pub open spec fn respond(self, action: ActionView) -> (Disk, EventView) {
        match action {
            ActionView::FindConfigDir => match self.lookup_failure {
                None => (self, EventView::Done),
                Some(why) => (self, EventView::Failed(why)),
            },
            ActionView::Probe(at) => (self, EventView::Present(self.holds(at))),
            ActionView::CreateDir(at) => if at == LocationView::BackupsDir {
                (self.with_backups_dir(), EventView::Done)
            } else {
                (self, EventView::Failed(self.trouble))
            },
            ActionView::Resolve(at) => (self, EventView::Path((self.path_of)(at))),
            ActionView::Copy { from, to } => if self.files.contains_key(from) && self.takes(to) {
                (self.with_file(to, self.files[from]), EventView::Done)
            } else {
                (self, EventView::Failed(self.trouble))
            },
            ActionView::Measure(at) => if self.files.contains_key(at) {
                (self, EventView::Size(self.files[at].len() as u64))
            } else {
                (self, EventView::Failed(self.trouble))
            },
            ActionView::ReadDir(at) => if at == LocationView::BackupsDir && self.has_backups_dir {
                (self, EventView::Entries(self.entries()))
            } else {
                (self, EventView::Failed(self.trouble))
            },
            ActionView::Remove(at) => if self.files.contains_key(at) {
                (self.without_file(at), EventView::Done)
            } else {
                (self, EventView::Failed(self.trouble))
            },
            ActionView::Finish(outcome) => (self, EventView::Done),
        }
    }
}

/// An operation that has not begun.
pub open spec fn fresh(request: RequestView) -> SessionView {
    SessionView { request, phase: Phase::Idle, filename: Seq::empty(), path: Seq::empty() }
}

/// The operation carried on from `session` and `event` on `disk` for at
/// most `steps` steps, with a caller that does what it is asked: the disk
/// at the end, and the outcome if the operation has ended.
pub open spec fn run(
    session: SessionView,
    event: EventView,
    disk: Disk,
    readings: ReadingsView,
    steps: nat,
) -> (Disk, Option<OutcomeView>)
    decreases steps,
{
    if steps == 0 {
        (disk, None)
    } else {
        let (after, action) = next(session, event, readings);
        match action {
            ActionView::Finish(outcome) => (disk, Some(outcome)),
            _ => {
                let (changed, account) = disk.respond(action);
                run(after, account, changed, readings, (steps - 1) as nat)
            },
        }
    }
}

/// The whole operation for `request` on `disk`, where the clock says
/// `readings`: the disk at the end, and the outcome.
pub open spec fn perform(request: RequestView, disk: Disk, readings: ReadingsView) -> (
    Disk,
    Option<OutcomeView>,
) {
    run(fresh(request), EventView::Start, disk, readings, 12)
}

} // verus!
