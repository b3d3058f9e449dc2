//! The backup manager: each operation as a sequence of steps.
//!
//! A step takes the operation as it stands and the account of the last
//! action, and gives the operation as it stands afterwards and the next
//! action. The manager itself reads nothing but the clock.

use crate::clock::{is_stamp, local_now_rfc3339, local_time_text};
use crate::listing::{
    arrange_backups, is_newest_first, listing_of, may_be_read_of, read_modified,
};
use crate::names::{
    backup_file_name, backup_name, import_safety_file_name, import_safety_name, join3,
    restore_safety_file_name, restore_safety_name,
};
use crate::protocol::{
    Action, ActionView, Event, EventView, Location, LocationView, Outcome, OutcomeView, Phase,
    Readings, ReadingsView, Request, RequestView, Session, SessionView,
};
use crate::text::{ends_in_db, has_db_extension};
use crate::types::{BackupError, BackupErrorView, BackupResult, BackupResultView, ErrorKind};
use vstd::prelude::*;

verus! {

/// The operation moves on to `phase` and asks for `action`.
pub open spec fn goes(session: SessionView, phase: Phase, action: ActionView) -> (
    SessionView,
    ActionView,
) {
    (SessionView { phase, ..session }, action)
}

/// The operation ends with `outcome`.
pub open spec fn ends(session: SessionView, outcome: OutcomeView) -> (SessionView, ActionView) {
    (SessionView { phase: Phase::Finished, ..session }, ActionView::Finish(outcome))
}

/// The operation ends with a failure.
pub open spec fn fails(session: SessionView, kind: ErrorKind, message: Seq<char>) -> (
    SessionView,
    ActionView,
) {
    ends(session, OutcomeView::Error(BackupErrorView { kind, message }))
}

/// The operation ends because the account does not answer what was asked.
pub open spec fn confused(session: SessionView) -> (SessionView, ActionView) {
    fails(session, ErrorKind::Io, "Unexpected reply from the file system"@)
}

/// The first action of an operation once the backup directory is there.
pub open spec fn first_action(session: SessionView) -> (SessionView, ActionView) {
    match session.request {
        RequestView::BackupDatabase => goes(
            session,
            Phase::ProbingSource,
            ActionView::Probe(LocationView::Database),
        ),
        RequestView::ListBackups => goes(
            session,
            Phase::Reading,
            ActionView::ReadDir(LocationView::BackupsDir),
        ),
        RequestView::RestoreDatabase { backup_filename } => goes(
            session,
            Phase::ProbingSource,
            ActionView::Probe(LocationView::Backup(backup_filename)),
        ),
        RequestView::ImportBackup { source_path } => goes(
            session,
            Phase::ProbingSource,
            ActionView::Probe(LocationView::External(source_path)),
        ),
        RequestView::ExportBackup { backup_filename, destination_path } => goes(
            session,
            Phase::ProbingSource,
            ActionView::Probe(LocationView::Backup(backup_filename)),
        ),
        RequestView::DeleteBackup { backup_filename } => goes(
            session,
            Phase::ProbingSource,
            ActionView::Probe(LocationView::Backup(backup_filename)),
        ),
        RequestView::GetBackupsPath => goes(
            session,
            Phase::Resolving,
            ActionView::Resolve(LocationView::BackupsDir),
        ),
    }
}

/// The operation is still finding its directories.
pub open spec fn is_settling(phase: Phase) -> bool {
    phase == Phase::Idle || phase == Phase::FindingConfigDir || phase == Phase::ProbingBackupsDir
        || phase == Phase::CreatingBackupsDir
}

/// The steps that every operation begins with: the configuration directory
/// is looked up, and the backup directory is made if it is not there.
pub open spec fn settle_next(session: SessionView, event: EventView) -> (SessionView, ActionView) {
    match (session.phase, event) {
        (Phase::Idle, EventView::Start) => goes(
            session,
            Phase::FindingConfigDir,
            ActionView::FindConfigDir,
        ),
        (Phase::FindingConfigDir, EventView::Done) => goes(
            session,
            Phase::ProbingBackupsDir,
            ActionView::Probe(LocationView::BackupsDir),
        ),
        (Phase::FindingConfigDir, EventView::Failed(detail)) => fails(
            session,
            ErrorKind::PathResolution,
            detail,
        ),
        (Phase::ProbingBackupsDir, EventView::Present(present)) => if present {
            first_action(session)
        } else {
            goes(session, Phase::CreatingBackupsDir, ActionView::CreateDir(LocationView::BackupsDir))
        },
        (Phase::CreatingBackupsDir, EventView::Done) => first_action(session),
        (Phase::CreatingBackupsDir, EventView::Failed(detail)) => fails(
            session,
            ErrorKind::Io,
            detail,
        ),
        _ => confused(session),
    }
}

/// Making a backup: the database must exist; it is copied to a new file
/// named after the time, and the copy is measured.
pub open spec fn backup_next(session: SessionView, event: EventView, readings: ReadingsView) -> (
    SessionView,
    ActionView,
) {
    match (session.request, session.phase, event) {
        (RequestView::BackupDatabase, Phase::ProbingSource, EventView::Present(present)) => if present {
            let name = backup_name(readings.stamp);
            goes(
                SessionView { filename: name, ..session },
                Phase::Resolving,
                ActionView::Resolve(LocationView::Backup(name)),
            )
        } else {
            fails(session, ErrorKind::NotFound, "Database file not found"@)
        },
        (RequestView::BackupDatabase, Phase::Resolving, EventView::Path(path)) => goes(
            SessionView { path, ..session },
            Phase::Copying,
            ActionView::Copy {
                from: LocationView::Database,
                to: LocationView::Backup(session.filename),
            },
        ),
        (RequestView::BackupDatabase, Phase::Copying, EventView::Done) => goes(
            session,
            Phase::Measuring,
            ActionView::Measure(LocationView::Backup(session.filename)),
        ),
        (RequestView::BackupDatabase, Phase::Copying, EventView::Failed(detail)) => fails(
            session,
            ErrorKind::Io,
            "Failed to backup database: "@ + detail,
        ),
        (RequestView::BackupDatabase, Phase::Measuring, EventView::Size(size)) => ends(
            session,
            OutcomeView::Backup(
                BackupResultView {
                    filename: session.filename,
                    path: session.path,
                    file_size: size,
                    created_at: readings.now,
                },
            ),
        ),
        (RequestView::BackupDatabase, Phase::Measuring, EventView::Failed(detail)) => fails(
            session,
            ErrorKind::Io,
            "Failed to get backup metadata: "@ + detail,
        ),
        _ => confused(session),
    }
}

/// Listing the backups: the entries of the backup directory that are named
/// like a backup file, newest first. A directory that cannot be read counts
/// as empty.
pub open spec fn list_next(session: SessionView, event: EventView, readings: ReadingsView) -> (
    SessionView,
    ActionView,
) {
    match (session.request, session.phase, event) {
        (RequestView::ListBackups, Phase::Reading, EventView::Entries(entries)) => ends(
            session,
            OutcomeView::Listing(listing_of(entries, readings.modified)),
        ),
        (RequestView::ListBackups, Phase::Reading, EventView::Failed(detail)) => ends(
            session,
            OutcomeView::Listing(Seq::empty()),
        ),
        _ => confused(session),
    }
}

/// Putting the file at `source` in the place of the live database: the
/// database, if there is one, is first copied to the safety backup whose
/// name the session holds.
pub open spec fn overwrite_next(
    session: SessionView,
    event: EventView,
    source: LocationView,
    trouble: Seq<char>,
    success: Seq<char>,
) -> (SessionView, ActionView) {
    let replace = ActionView::Copy { from: source, to: LocationView::Database };
    match (session.phase, event) {
        (Phase::ProbingDatabase, EventView::Present(present)) => if present {
            goes(
                session,
                Phase::Protecting,
                ActionView::Copy {
                    from: LocationView::Database,
                    to: LocationView::Backup(session.filename),
                },
            )
        } else {
            goes(session, Phase::Copying, replace)
        },
        (Phase::Protecting, EventView::Done) => goes(session, Phase::Copying, replace),
        (Phase::Protecting, EventView::Failed(detail)) => fails(
            session,
            ErrorKind::Io,
            "Failed to create safety backup: "@ + detail,
        ),
        (Phase::Copying, EventView::Done) => ends(
            session,
            OutcomeView::Message(success + session.filename),
        ),
        (Phase::Copying, EventView::Failed(detail)) => fails(
            session,
            ErrorKind::Io,
            trouble + detail,
        ),
        _ => confused(session),
    }
}

/// What a restore reports when it is done, but for the safety backup's
/// name.
pub open spec fn restored_message(backup_filename: Seq<char>) -> Seq<char> {
    "Database restored from "@ + backup_filename + ". Safety backup created: "@
}

/// Restoring a backup: the named backup must exist; the live database is
/// saved to a safety backup and then replaced by the named one.
pub open spec fn restore_next(session: SessionView, event: EventView, readings: ReadingsView) -> (
    SessionView,
    ActionView,
) {
    match session.request {
        RequestView::RestoreDatabase { backup_filename } => match (session.phase, event) {
            (Phase::ProbingSource, EventView::Present(present)) => if present {
                goes(
                    SessionView { filename: restore_safety_name(readings.stamp), ..session },
                    Phase::ProbingDatabase,
                    ActionView::Probe(LocationView::Database),
                )
            } else {
                fails(session, ErrorKind::NotFound, "Backup file not found: "@ + backup_filename)
            },
            _ => overwrite_next(
                session,
                event,
                LocationView::Backup(backup_filename),
                "Failed to restore database: "@,
                restored_message(backup_filename),
            ),
        },
        _ => confused(session),
    }
}

/// Importing a backup from elsewhere: the file must exist and be named like
/// a backup file; the live database is saved to a safety backup and then
/// replaced by the file.
pub open spec fn import_next(session: SessionView, event: EventView, readings: ReadingsView) -> (
    SessionView,
    ActionView,
) {
    match session.request {
        RequestView::ImportBackup { source_path } => match (session.phase, event) {
            (Phase::ProbingSource, EventView::Present(present)) => if !present {
                fails(session, ErrorKind::InvalidInput, "Source backup file not found"@)
            } else if !ends_in_db(source_path) {
                fails(session, ErrorKind::InvalidInput, "Invalid backup file. Expected .db file"@)
            } else {
                goes(
                    SessionView { filename: import_safety_name(readings.stamp), ..session },
                    Phase::ProbingDatabase,
                    ActionView::Probe(LocationView::Database),
                )
            },
            _ => overwrite_next(
                session,
                event,
                LocationView::External(source_path),
                "Failed to import backup: "@,
                "Database imported from external backup. Safety backup created: "@,
            ),
        },
        _ => confused(session),
    }
}

/// Exporting a backup: the named backup must exist; it is copied to the
/// destination, whatever stands there.
pub open spec fn export_next(session: SessionView, event: EventView) -> (SessionView, ActionView) {
    match session.request {
        RequestView::ExportBackup { backup_filename, destination_path } => match (
            session.phase,
            event,
        ) {
            (Phase::ProbingSource, EventView::Present(present)) => if present {
                goes(
                    session,
                    Phase::Copying,
                    ActionView::Copy {
                        from: LocationView::Backup(backup_filename),
                        to: LocationView::External(destination_path),
                    },
                )
            } else {
                fails(session, ErrorKind::NotFound, "Backup file not found: "@ + backup_filename)
            },
            (Phase::Copying, EventView::Done) => ends(
                session,
                OutcomeView::Message("Backup exported to: "@ + destination_path),
            ),
            (Phase::Copying, EventView::Failed(detail)) => fails(
                session,
                ErrorKind::Io,
                "Failed to export backup: "@ + detail,
            ),
            _ => confused(session),
        },
        _ => confused(session),
    }
}

/// Deleting a backup: the named file must exist and be named like a backup
/// file; it is removed.
pub open spec fn delete_next(session: SessionView, event: EventView) -> (SessionView, ActionView) {
    match session.request {
        RequestView::DeleteBackup { backup_filename } => match (session.phase, event) {
            (Phase::ProbingSource, EventView::Present(present)) => if !present {
                fails(session, ErrorKind::NotFound, "Backup file not found: "@ + backup_filename)
            } else if !ends_in_db(backup_filename) {
                fails(session, ErrorKind::InvalidInput, "Can only delete .db backup files"@)
            } else {
                goes(
                    session,
                    Phase::Removing,
                    ActionView::Remove(LocationView::Backup(backup_filename)),
                )
            },
            (Phase::Removing, EventView::Done) => ends(
                session,
                OutcomeView::Message("Backup deleted: "@ + backup_filename),
            ),
            (Phase::Removing, EventView::Failed(detail)) => fails(
                session,
                ErrorKind::Io,
                "Failed to delete backup: "@ + detail,
            ),
            _ => confused(session),
        },
        _ => confused(session),
    }
}

/// Telling where the backups lie.
pub open spec fn path_next(session: SessionView, event: EventView) -> (SessionView, ActionView) {
    match (session.request, session.phase, event) {
        (RequestView::GetBackupsPath, Phase::Resolving, EventView::Path(path)) => ends(
            session,
            OutcomeView::Path(path),
        ),
        _ => confused(session),
    }
}

/// One step of an operation: the operation as it stands after `event`, and
/// the next action, given what the clock said.
pub open spec fn next(session: SessionView, event: EventView, readings: ReadingsView) -> (
    SessionView,
    ActionView,
) {
    if is_settling(session.phase) {
        settle_next(session, event)
    } else {
        match session.request {
            RequestView::BackupDatabase => backup_next(session, event, readings),
            RequestView::ListBackups => list_next(session, event, readings),
            RequestView::RestoreDatabase { .. } => restore_next(session, event, readings),
            RequestView::ImportBackup { .. } => import_next(session, event, readings),
            RequestView::ExportBackup { .. } => export_next(session, event),
            RequestView::DeleteBackup { .. } => delete_next(session, event),
            RequestView::GetBackupsPath => path_next(session, event),
        }
    }
}

/// Moves the operation on to `phase`, with `action` to be done next.
fn go(session: Session, phase: Phase, action: Action) -> (r: (Session, Action))
    ensures
        (r.0@, r.1@) == goes(session@, phase, action@),
{
    (
        Session {
            request: session.request,
            phase,
            filename: session.filename,
            path: session.path,
        },
        action,
    )
}

/// Ends the operation with `outcome`.
fn end(session: Session, outcome: Outcome) -> (r: (Session, Action))
    ensures
        (r.0@, r.1@) == ends(session@, outcome@),
{
    go(session, Phase::Finished, Action::Finish(outcome))
}

/// Ends the operation with a failure.
fn fail(session: Session, kind: ErrorKind, message: String) -> (r: (Session, Action))
    ensures
        (r.0@, r.1@) == fails(session@, kind, message@),
{
    end(session, Outcome::Error(BackupError { kind, message }))
}

/// Ends the operation because the account does not answer what was asked.
fn confuse(session: Session) -> (r: (Session, Action))
    ensures
        (r.0@, r.1@) == confused(session@),
{
    fail(session, ErrorKind::Io, String::from_str("Unexpected reply from the file system"))
}

/// `prefix` with `detail` behind it.
fn with_detail(prefix: &str, detail: &String) -> (r: String)
    ensures
        r@ == prefix@ + detail@,
{
    String::from_str(prefix).concat(detail.as_str())
}

/// Gives the session the name of the file that it makes.
fn named(session: Session, filename: String) -> (r: Session)
    ensures
        r@ == (SessionView { filename: filename@, ..session@ }),
{
    Session { request: session.request, phase: session.phase, filename, path: session.path }
}

/// A new operation for `request`, nothing done yet.
pub fn new_session(request: Request) -> (session: Session)
    ensures
        session@ == (SessionView {
            request: request@,
            phase: Phase::Idle,
            filename: Seq::empty(),
            path: Seq::empty(),
        }),
{
    Session { request, phase: Phase::Idle, filename: String::new(), path: String::new() }
}

/// Asks for the first action of the operation itself.
fn begin(session: Session) -> (r: (Session, Action))
    ensures
        (r.0@, r.1@) == first_action(session@),
{
    let (phase, action) = match &session.request {
        Request::BackupDatabase => (Phase::ProbingSource, Action::Probe(Location::Database)),
        Request::ListBackups => (Phase::Reading, Action::ReadDir(Location::BackupsDir)),
        Request::RestoreDatabase { backup_filename } => (
            Phase::ProbingSource,
            Action::Probe(Location::Backup(backup_filename.clone())),
        ),
        Request::ImportBackup { source_path } => (
            Phase::ProbingSource,
            Action::Probe(Location::External(source_path.clone())),
        ),
        Request::ExportBackup { backup_filename, destination_path } => (
            Phase::ProbingSource,
            Action::Probe(Location::Backup(backup_filename.clone())),
        ),
        Request::DeleteBackup { backup_filename } => (
            Phase::ProbingSource,
            Action::Probe(Location::Backup(backup_filename.clone())),
        ),
        Request::GetBackupsPath => (Phase::Resolving, Action::Resolve(Location::BackupsDir)),
    };
    go(session, phase, action)
}

/// The steps that every operation begins with: looks up the configuration
/// directory and sees to it that the backup directory exists, then asks
/// for the first action of the operation itself.
///
/// A failed lookup ends the operation with `PathResolution`, a backup
/// directory that cannot be made with `Io`; the message is the system's
/// own.
pub fn get_backups_dir(session: Session, event: Event) -> (r: (Session, Action))
    ensures
        (r.0@, r.1@) == settle_next(session@, event@),
{
    match session.phase {
        Phase::Idle => match event {
            Event::Start => go(session, Phase::FindingConfigDir, Action::FindConfigDir),
            _ => confuse(session),
        },
        Phase::FindingConfigDir => match event {
            Event::Done => go(
                session,
                Phase::ProbingBackupsDir,
                Action::Probe(Location::BackupsDir),
            ),
            Event::Failed(detail) => fail(session, ErrorKind::PathResolution, detail),
            _ => confuse(session),
        },
        Phase::ProbingBackupsDir => match event {
            Event::Present(present) => {
                if present {
                    begin(session)
                } else {
                    go(
                        session,
                        Phase::CreatingBackupsDir,
                        Action::CreateDir(Location::BackupsDir),
                    )
                }
            },
            _ => confuse(session),
        },
        Phase::CreatingBackupsDir => match event {
            Event::Done => begin(session),
            Event::Failed(detail) => fail(session, ErrorKind::Io, detail),
            _ => confuse(session),
        },
        _ => confuse(session),
    }
}

/// One step of making a backup, once the directories are there.
///
/// Without a database the operation fails with `NotFound`. Otherwise the
/// database is copied to a new file in the backup directory, named after
/// the stamp in `readings`, and the result tells the copy's name, path and
/// size and the time in `readings`. A copy or a measuring that fails ends
/// the operation with `Io`.
pub fn backup_database(session: Session, event: Event, readings: &Readings) -> (r: (
    Session,
    Action,
))
    ensures
        (r.0@, r.1@) == backup_next(session@, event@, readings@),
{
    match &session.request {
        Request::BackupDatabase => {},
        _ => {
            return confuse(session);
        },
    }
    match session.phase {
        Phase::ProbingSource => match event {
            Event::Present(present) => {
                if present {
                    let name = backup_file_name(readings.stamp.as_str());
                    let action = Action::Resolve(Location::Backup(name.clone()));
                    go(named(session, name), Phase::Resolving, action)
                } else {
                    fail(session, ErrorKind::NotFound, String::from_str("Database file not found"))
                }
            },
            _ => confuse(session),
        },
        Phase::Resolving => match event {
            Event::Path(path) => {
                let action = Action::Copy {
                    from: Location::Database,
                    to: Location::Backup(session.filename.clone()),
                };
                let located = Session {
                    request: session.request,
                    phase: session.phase,
                    filename: session.filename,
                    path,
                };
                go(located, Phase::Copying, action)
            },
            _ => confuse(session),
        },
        Phase::Copying => match event {
            Event::Done => {
                let action = Action::Measure(Location::Backup(session.filename.clone()));
                go(session, Phase::Measuring, action)
            },
            Event::Failed(detail) => fail(
                session,
                ErrorKind::Io,
                with_detail("Failed to backup database: ", &detail),
            ),
            _ => confuse(session),
        },
        Phase::Measuring => match event {
            Event::Size(size) => {
                let result = BackupResult {
                    filename: session.filename.clone(),
                    path: session.path.clone(),
                    file_size: size,
                    created_at: readings.now.clone(),
                };
                end(session, Outcome::Backup(result))
            },
            Event::Failed(detail) => fail(
                session,
                ErrorKind::Io,
                with_detail("Failed to get backup metadata: ", &detail),
            ),
            _ => confuse(session),
        },
        _ => confuse(session),
    }
}

/// One step of listing the backups, once the directories are there.
///
/// The listing holds the entries that are named like a backup file and
/// whose metadata could be read, newest first, each with the time of
/// modification that `readings` gives for it. A directory that cannot be
/// read gives an empty listing, not a failure.
pub fn list_backups(session: Session, event: Event, readings: &Readings) -> (r: (Session, Action))
    ensures
        (r.0@, r.1@) == list_next(session@, event@, readings@),
        r.1@ matches ActionView::Finish(OutcomeView::Listing(lines)) ==> is_newest_first(lines),
{
    match &session.request {
        Request::ListBackups => {},
        _ => {
            return confuse(session);
        },
    }
    match session.phase {
        Phase::Reading => match event {
            Event::Entries(entries) => {
                let lines = arrange_backups(&entries, &readings.modified);
                end(session, Outcome::Listing(lines))
            },
            Event::Failed(detail) => {
                let lines: Vec<crate::types::BackupFileInfo> = Vec::new();
                assert(lines.deep_view() =~= Seq::empty());
                end(session, Outcome::Listing(lines))
            },
            _ => confuse(session),
        },
        _ => confuse(session),
    }
}

/// One step of putting the file at `source` in the place of the live
/// database: the database, if there is one, is first copied to the safety
/// backup whose name the session holds.
fn overwrite(session: Session, event: Event, source: Location, trouble: &str, success: String) -> (r:
    (Session, Action))
    ensures
        (r.0@, r.1@) == overwrite_next(session@, event@, source@, trouble@, success@),
{
    match session.phase {
        Phase::ProbingDatabase => match event {
            Event::Present(present) => {
                if present {
                    let action = Action::Copy {
                        from: Location::Database,
                        to: Location::Backup(session.filename.clone()),
                    };
                    go(session, Phase::Protecting, action)
                } else {
                    go(
                        session,
                        Phase::Copying,
                        Action::Copy { from: source, to: Location::Database },
                    )
                }
            },
            _ => confuse(session),
        },
        Phase::Protecting => match event {
            Event::Done => go(
                session,
                Phase::Copying,
                Action::Copy { from: source, to: Location::Database },
            ),
            Event::Failed(detail) => fail(
                session,
                ErrorKind::Io,
                with_detail("Failed to create safety backup: ", &detail),
            ),
            _ => confuse(session),
        },
        Phase::Copying => match event {
            Event::Done => {
                let message = success.concat(session.filename.as_str());
                end(session, Outcome::Message(message))
            },
            Event::Failed(detail) => fail(session, ErrorKind::Io, with_detail(trouble, &detail)),
            _ => confuse(session),
        },
        _ => confuse(session),
    }
}

/// One step of restoring a backup, once the directories are there.
///
/// A backup that does not exist ends the operation with `NotFound`.
/// Otherwise the live database, if there is one, is copied to a safety
/// backup named after the stamp in `readings`, and the named backup is
/// copied over the database. The message names the backup and the safety
/// backup, whether or not there was a database to save. A copy that fails
/// ends the operation with `Io`.
pub fn restore_database(session: Session, event: Event, readings: &Readings) -> (r: (
    Session,
    Action,
))
    ensures
        (r.0@, r.1@) == restore_next(session@, event@, readings@),
{
    let backup_filename = match &session.request {
        Request::RestoreDatabase { backup_filename } => backup_filename.clone(),
        _ => {
            return confuse(session);
        },
    };
    let probing = match session.phase {
        Phase::ProbingSource => true,
        _ => false,
    };
    if probing {
        if let Event::Present(present) = &event {
            if *present {
                let name = restore_safety_file_name(readings.stamp.as_str());
                return go(
                    named(session, name),
                    Phase::ProbingDatabase,
                    Action::Probe(Location::Database),
                );
            } else {
                return fail(
                    session,
                    ErrorKind::NotFound,
                    with_detail("Backup file not found: ", &backup_filename),
                );
            }
        }
    }
    let success = join3(
        "Database restored from ",
        backup_filename.as_str(),
        ". Safety backup created: ",
    );
    overwrite(
        session,
        event,
        Location::Backup(backup_filename),
        "Failed to restore database: ",
        success,
    )
}

/// One step of importing a backup from elsewhere, once the directories are
/// there.
///
/// A file that does not exist, or is not named like a backup file, ends
/// the operation with `InvalidInput` before anything is copied. Otherwise
/// the live database, if there is one, is copied to a safety backup named
/// after the stamp in `readings`, and the file is copied over the
/// database. A copy that fails ends the operation with `Io`.
pub fn import_backup(session: Session, event: Event, readings: &Readings) -> (r: (Session, Action))
    ensures
        (r.0@, r.1@) == import_next(session@, event@, readings@),
{
    let source_path = match &session.request {
        Request::ImportBackup { source_path } => source_path.clone(),
        _ => {
            return confuse(session);
        },
    };
    let probing = match session.phase {
        Phase::ProbingSource => true,
        _ => false,
    };
    if probing {
        if let Event::Present(present) = &event {
            if !*present {
                return fail(
                    session,
                    ErrorKind::InvalidInput,
                    String::from_str("Source backup file not found"),
                );
            } else if !has_db_extension(source_path.as_str()) {
                return fail(
                    session,
                    ErrorKind::InvalidInput,
                    String::from_str("Invalid backup file. Expected .db file"),
                );
            } else {
                let name = import_safety_file_name(readings.stamp.as_str());
                return go(
                    named(session, name),
                    Phase::ProbingDatabase,
                    Action::Probe(Location::Database),
                );
            }
        }
    }
    overwrite(
        session,
        event,
        Location::External(source_path),
        "Failed to import backup: ",
        String::from_str("Database imported from external backup. Safety backup created: "),
    )
}

/// One step of exporting a backup, once the directories are there.
///
/// A backup that does not exist ends the operation with `NotFound`.
/// Otherwise it is copied to the destination, whose name is not looked at.
/// A copy that fails ends the operation with `Io`.
pub fn export_backup(session: Session, event: Event) -> (r: (Session, Action))
    ensures
        (r.0@, r.1@) == export_next(session@, event@),
{
    let (backup_filename, destination_path) = match &session.request {
        Request::ExportBackup { backup_filename, destination_path } => (
            backup_filename.clone(),
            destination_path.clone(),
        ),
        _ => {
            return confuse(session);
        },
    };
    match session.phase {
        Phase::ProbingSource => match event {
            Event::Present(present) => {
                if present {
                    go(
                        session,
                        Phase::Copying,
                        Action::Copy {
                            from: Location::Backup(backup_filename),
                            to: Location::External(destination_path),
                        },
                    )
                } else {
                    fail(
                        session,
                        ErrorKind::NotFound,
                        with_detail("Backup file not found: ", &backup_filename),
                    )
                }
            },
            _ => confuse(session),
        },
        Phase::Copying => match event {
            Event::Done => end(
                session,
                Outcome::Message(with_detail("Backup exported to: ", &destination_path)),
            ),
            Event::Failed(detail) => fail(
                session,
                ErrorKind::Io,
                with_detail("Failed to export backup: ", &detail),
            ),
            _ => confuse(session),
        },
        _ => confuse(session),
    }
}

/// One step of deleting a backup, once the directories are there.
///
/// A file that does not exist ends the operation with `NotFound`; one that
/// exists but is not named like a backup file ends it with `InvalidInput`,
/// and nothing is removed. A removal that fails ends the operation with
/// `Io`.
pub fn delete_backup(session: Session, event: Event) -> (r: (Session, Action))
    ensures
        (r.0@, r.1@) == delete_next(session@, event@),
{
    let backup_filename = match &session.request {
        Request::DeleteBackup { backup_filename } => backup_filename.clone(),
        _ => {
            return confuse(session);
        },
    };
    match session.phase {
        Phase::ProbingSource => match event {
            Event::Present(present) => {
                if !present {
                    fail(
                        session,
                        ErrorKind::NotFound,
                        with_detail("Backup file not found: ", &backup_filename),
                    )
                } else if !has_db_extension(backup_filename.as_str()) {
                    fail(
                        session,
                        ErrorKind::InvalidInput,
                        String::from_str("Can only delete .db backup files"),
                    )
                } else {
                    go(session, Phase::Removing, Action::Remove(Location::Backup(backup_filename)))
                }
            },
            _ => confuse(session),
        },
        Phase::Removing => match event {
            Event::Done => end(
                session,
                Outcome::Message(with_detail("Backup deleted: ", &backup_filename)),
            ),
            Event::Failed(detail) => fail(
                session,
                ErrorKind::Io,
                with_detail("Failed to delete backup: ", &detail),
            ),
            _ => confuse(session),
        },
        _ => confuse(session),
    }
}

/// One step of telling where the backups lie, once the directories are
/// there: the outcome is the path of the backup directory.
pub fn get_backups_path(session: Session, event: Event) -> (r: (Session, Action))
    ensures
        (r.0@, r.1@) == path_next(session@, event@),
{
    match &session.request {
        Request::GetBackupsPath => {},
        _ => {
            return confuse(session);
        },
    }
    match session.phase {
        Phase::Resolving => match event {
            Event::Path(path) => end(session, Outcome::Path(path)),
            _ => confuse(session),
        },
        _ => confuse(session),
    }
}

/// Takes an operation one step further, given what the clock said: returns
/// the operation as it stands after `event`, and the next action.
pub fn advance(session: Session, event: Event, readings: &Readings) -> (r: (Session, Action))
    ensures
        (r.0@, r.1@) == next(session@, event@, readings@),
{
    let settling = match session.phase {
        Phase::Idle => true,
        Phase::FindingConfigDir => true,
        Phase::ProbingBackupsDir => true,
        Phase::CreatingBackupsDir => true,
        _ => false,
    };
    if settling {
        return get_backups_dir(session, event);
    }
    match session.request {
        Request::BackupDatabase => backup_database(session, event, readings),
        Request::ListBackups => list_backups(session, event, readings),
        Request::RestoreDatabase { .. } => restore_database(session, event, readings),
        Request::ImportBackup { .. } => import_backup(session, event, readings),
        Request::ExportBackup { .. } => export_backup(session, event),
        Request::DeleteBackup { .. } => delete_backup(session, event),
        Request::GetBackupsPath => get_backups_path(session, event),
    }
}

/// The step makes a file and names it after the time.
pub open spec fn wants_stamp(session: SessionView, event: EventView) -> bool {
    &&& session.phase == Phase::ProbingSource
    &&& event == EventView::Present(true)
    &&& match session.request {
        RequestView::BackupDatabase => true,
        RequestView::RestoreDatabase { .. } => true,
        RequestView::ImportBackup { source_path } => ends_in_db(source_path),
        _ => false,
    }
}

/// `readings` is what a step on `event` may have read from the clock: a
/// stamp where the step names a file, and the times of modification of the
/// entries where the event brings a directory's entries.
pub open spec fn may_be_read(readings: ReadingsView, session: SessionView, event: EventView) -> bool {
    &&& wants_stamp(session, event) ==> is_stamp(readings.stamp)
    &&& event matches EventView::Entries(entries) ==> may_be_read_of(readings.modified, entries)
}

/// Reads from the clock what the step on `event` needs.
fn read_clock(session: &Session, event: &Event) -> (readings: Readings)
    ensures
        may_be_read(readings@, session@, event@),
{
    let mut stamp = String::new();
    let mut now = String::new();
    let mut modified: Vec<Option<String>> = Vec::new();
    match session.phase {
        Phase::ProbingSource => {
            let makes_file = match &session.request {
                Request::BackupDatabase => true,
                Request::RestoreDatabase { .. } => true,
                Request::ImportBackup { source_path } => has_db_extension(source_path.as_str()),
                _ => false,
            };
            let present = match event {
                Event::Present(present) => *present,
                _ => false,
            };
            if makes_file && present {
                stamp = local_time_text("%Y-%m-%d_%H-%M-%S");
            }
        },
        Phase::Measuring => {
            let reports = match &session.request {
                Request::BackupDatabase => true,
                _ => false,
            };
            let measured = match event {
                Event::Size(_) => true,
                _ => false,
            };
            if reports && measured {
                now = local_now_rfc3339();
            }
        },
        _ => {},
    }
    match event {
        Event::Entries(entries) => {
            modified = read_modified(entries);
        },
        _ => {},
    }
    Readings { stamp, now, modified }
}

/// Takes an operation one step further: given how the last action went,
/// returns the operation as it stands afterwards and the next action.
///
/// Where the step names a new file or reports a time it reads the local
/// clock; the result is that of [`advance`] on what the clock said.
pub fn step(session: Session, event: Event) -> (r: (Session, Action))
    ensures
        exists|readings: ReadingsView|
            may_be_read(readings, session@, event@) && (r.0@, r.1@) == #[trigger] next(
                session@,
                event@,
                readings,
            ),
{
    let readings = read_clock(&session, &event);
    advance(session, event, &readings)
}

} // verus!
