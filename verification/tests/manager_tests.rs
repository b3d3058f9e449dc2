use motormods_backup::listing::{DirEntry, FileMetadata, Timestamp};
use motormods_backup::manager::{
    advance, backup_database, delete_backup, export_backup, get_backups_dir, get_backups_path,
    import_backup, list_backups, new_session, restore_database, step,
};
use motormods_backup::protocol::{
    Action, Event, Location, Outcome, Phase, Readings, Request, Session,
};
use motormods_backup::types::{BackupError, BackupFileInfo, BackupResult, ErrorKind};
use std::collections::BTreeMap;

/// A file system in memory that does what it is asked.
#[derive(Clone, Debug, PartialEq)]
struct Disk {
    config_dir: Result<String, String>,
    has_backups_dir: bool,
    files: BTreeMap<String, (Vec<u8>, i64)>,
    clock: i64,
    log: Vec<String>,
}

impl Disk {
    fn new() -> Disk {
        Disk {
            config_dir: Ok("/cfg".to_string()),
            has_backups_dir: true,
            files: BTreeMap::new(),
            clock: 1_700_000_000,
            log: Vec::new(),
        }
    }

    fn with(mut self, path: &str, bytes: &[u8]) -> Disk {
        self.write(path, bytes.to_vec());
        self
    }

    fn write(&mut self, path: &str, bytes: Vec<u8>) {
        self.clock += 60;
        self.files.insert(path.to_string(), (bytes, self.clock));
    }

    fn bytes(&self, path: &str) -> Option<Vec<u8>> {
        self.files.get(path).map(|f| f.0.clone())
    }

    fn path(&self, at: &Location) -> String {
        match at {
            Location::Database => "/cfg/motormods.db".to_string(),
            Location::BackupsDir => "/cfg/backups".to_string(),
            Location::Backup(name) => format!("/cfg/backups/{}", name),
            Location::External(path) => path.clone(),
        }
    }

    fn respond(&mut self, action: &Action) -> Event {
        match action {
            Action::FindConfigDir => match &self.config_dir {
                Ok(_) => Event::Done,
                Err(why) => Event::Failed(why.clone()),
            },
            Action::Probe(at) => match at {
                Location::BackupsDir => Event::Present(self.has_backups_dir),
                _ => Event::Present(self.files.contains_key(&self.path(at))),
            },
            Action::CreateDir(_) => {
                self.log.push("mkdir".to_string());
                self.has_backups_dir = true;
                Event::Done
            }
            Action::Resolve(at) => Event::Path(self.path(at)),
            Action::Copy { from, to } => {
                self.log.push(format!("copy {} -> {}", self.path(from), self.path(to)));
                match self.bytes(&self.path(from)) {
                    Some(bytes) => {
                        let target = self.path(to);
                        self.write(&target, bytes);
                        Event::Done
                    }
                    None => Event::Failed("No such file or directory (os error 2)".to_string()),
                }
            }
            Action::Measure(at) => match self.bytes(&self.path(at)) {
                Some(bytes) => Event::Size(bytes.len() as u64),
                None => Event::Failed("No such file or directory (os error 2)".to_string()),
            },
            Action::ReadDir(_) => {
                if !self.has_backups_dir {
                    return Event::Failed("No such file or directory (os error 2)".to_string());
                }
                let mut entries = Vec::new();
                for (path, (bytes, modified)) in self.files.iter() {
                    if let Some(name) = path.strip_prefix("/cfg/backups/") {
                        entries.push(DirEntry {
                            filename: name.to_string(),
                            path: path.clone(),
                            metadata: Some(FileMetadata {
                                file_size: bytes.len() as u64,
                                modified: Some(Timestamp { secs: *modified, nanos: 0 }),
                            }),
                        });
                    }
                }
                Event::Entries(entries)
            }
            Action::Remove(at) => {
                self.log.push(format!("remove {}", self.path(at)));
                match self.files.remove(&self.path(at)) {
                    Some(_) => Event::Done,
                    None => Event::Failed("No such file or directory (os error 2)".to_string()),
                }
            }
            Action::Finish(_) => Event::Done,
        }
    }
}

const STAMP: &str = "2024-03-09_17-05-42";
const NOW: &str = "2024-03-09T17:05:42.123456789+01:00";

fn readings(stamp: &str) -> Readings {
    Readings { stamp: stamp.to_string(), now: NOW.to_string(), modified: Vec::new() }
}

/// Carries the operation out on the disk, with a clock that says `stamp`.
fn perform_at(disk: &mut Disk, request: Request, stamp: &str) -> Outcome {
    let mut session = new_session(request);
    let mut event = Event::Start;
    for _ in 0..20 {
        let mut said = readings(stamp);
        if let Event::Entries(entries) = &event {
            said.modified = entries
                .iter()
                .map(|e| {
                    e.metadata
                        .and_then(|m| m.modified)
                        .map(|t| format!("{:020}", t.secs))
                })
                .collect();
        }
        let (after, action) = advance(session, event, &said);
        if let Action::Finish(outcome) = action {
            assert_eq!(after.phase, Phase::Finished);
            return outcome;
        }
        event = disk.respond(&action);
        session = after;
    }
    panic!("the operation did not end");
}

fn perform(disk: &mut Disk, request: Request) -> Outcome {
    perform_at(disk, request, STAMP)
}

/// Carries the operation out on the disk, with the real clock.
fn perform_now(disk: &mut Disk, request: Request) -> Outcome {
    let mut session = new_session(request);
    let mut event = Event::Start;
    for _ in 0..20 {
        let (after, action) = step(session, event);
        if let Action::Finish(outcome) = action {
            return outcome;
        }
        event = disk.respond(&action);
        session = after;
    }
    panic!("the operation did not end");
}

fn error(kind: ErrorKind, message: &str) -> Outcome {
    Outcome::Error(BackupError { kind, message: message.to_string() })
}

fn listing(disk: &mut Disk) -> Vec<BackupFileInfo> {
    match perform(disk, Request::ListBackups) {
        Outcome::Listing(lines) => lines,
        other => panic!("no listing: {:?}", other),
    }
}

fn restore(name: &str) -> Request {
    Request::RestoreDatabase { backup_filename: name.to_string() }
}

fn delete(name: &str) -> Request {
    Request::DeleteBackup { backup_filename: name.to_string() }
}

fn import(path: &str) -> Request {
    Request::ImportBackup { source_path: path.to_string() }
}

fn export(name: &str, to: &str) -> Request {
    Request::ExportBackup { backup_filename: name.to_string(), destination_path: to.to_string() }
}

// ---- making a backup

#[test]
fn backup_copies_the_database_under_a_stamped_name() {
    let mut disk = Disk::new().with("/cfg/motormods.db", b"live data");
    let outcome = perform(&mut disk, Request::BackupDatabase);
    assert_eq!(
        outcome,
        Outcome::Backup(BackupResult {
            filename: "motormods_backup_2024-03-09_17-05-42.db".to_string(),
            path: "/cfg/backups/motormods_backup_2024-03-09_17-05-42.db".to_string(),
            file_size: 9,
            created_at: NOW.to_string(),
        })
    );
    assert_eq!(
        disk.bytes("/cfg/backups/motormods_backup_2024-03-09_17-05-42.db"),
        Some(b"live data".to_vec())
    );
    assert_eq!(disk.bytes("/cfg/motormods.db"), Some(b"live data".to_vec()));
    assert_eq!(
        disk.log,
        vec!["copy /cfg/motormods.db -> /cfg/backups/motormods_backup_2024-03-09_17-05-42.db"]
    );
}

#[test]
fn backup_then_list_shows_exactly_one_new_entry_of_the_same_size() {
    let mut disk = Disk::new()
        .with("/cfg/motormods.db", b"0123456789abcdef")
        .with("/cfg/backups/motormods_backup_2023-01-01_00-00-00.db", b"old")
        .with("/cfg/backups/readme.txt", b"not a backup");
    let before = listing(&mut disk);
    let made = match perform(&mut disk, Request::BackupDatabase) {
        Outcome::Backup(result) => result,
        other => panic!("no backup: {:?}", other),
    };
    assert_eq!(made.file_size, 16);
    let after = listing(&mut disk);
    assert_eq!(after.len(), before.len() + 1);
    let new: Vec<&BackupFileInfo> =
        after.iter().filter(|l| !before.iter().any(|b| b.filename == l.filename)).collect();
    assert_eq!(new.len(), 1);
    assert_eq!(new[0].filename, made.filename);
    assert_eq!(new[0].path, made.path);
    assert_eq!(new[0].file_size, 16);
    for old in before.iter() {
        assert!(after.contains(old));
    }
    // the new backup is the newest
    assert_eq!(after[0].filename, made.filename);
}

#[test]
fn backup_without_a_database_fails_and_leaves_the_directory_alone() {
    let mut disk =
        Disk::new().with("/cfg/backups/motormods_backup_2023-01-01_00-00-00.db", b"old");
    let before = disk.clone();
    let outcome = perform(&mut disk, Request::BackupDatabase);
    assert_eq!(outcome, error(ErrorKind::NotFound, "Database file not found"));
    assert_eq!(disk, before);
}

#[test]
fn a_second_backup_in_the_same_second_replaces_the_first() {
    let mut disk = Disk::new().with("/cfg/motormods.db", b"one");
    perform(&mut disk, Request::BackupDatabase);
    disk.write("/cfg/motormods.db", b"two!".to_vec());
    let outcome = perform(&mut disk, Request::BackupDatabase);
    match outcome {
        Outcome::Backup(result) => assert_eq!(result.file_size, 4),
        other => panic!("no backup: {:?}", other),
    }
    assert_eq!(listing(&mut disk).len(), 1);
}

#[test]
fn backup_reports_a_failed_copy() {
    let session = new_session(Request::BackupDatabase);
    let session = Session {
        phase: Phase::Copying,
        filename: "motormods_backup_2024-03-09_17-05-42.db".to_string(),
        ..session
    };
    let (after, action) =
        backup_database(session, Event::Failed("disk full".to_string()), &readings(STAMP));
    assert_eq!(after.phase, Phase::Finished);
    assert_eq!(
        action,
        Action::Finish(error(ErrorKind::Io, "Failed to backup database: disk full"))
    );
}

#[test]
fn backup_reports_a_failed_measuring() {
    let session = Session { phase: Phase::Measuring, ..new_session(Request::BackupDatabase) };
    let (_, action) =
        backup_database(session, Event::Failed("gone".to_string()), &readings(STAMP));
    assert_eq!(
        action,
        Action::Finish(error(ErrorKind::Io, "Failed to get backup metadata: gone"))
    );
}

#[test]
fn backup_steps_in_order() {
    let said = readings(STAMP);
    let name = "motormods_backup_2024-03-09_17-05-42.db".to_string();
    let session = new_session(Request::BackupDatabase);
    let (session, action) = advance(session, Event::Start, &said);
    assert_eq!(action, Action::FindConfigDir);
    let (session, action) = advance(session, Event::Done, &said);
    assert_eq!(action, Action::Probe(Location::BackupsDir));
    let (session, action) = advance(session, Event::Present(false), &said);
    assert_eq!(action, Action::CreateDir(Location::BackupsDir));
    let (session, action) = advance(session, Event::Done, &said);
    assert_eq!(action, Action::Probe(Location::Database));
    let (session, action) = advance(session, Event::Present(true), &said);
    assert_eq!(action, Action::Resolve(Location::Backup(name.clone())));
    assert_eq!(session.filename, name);
    let (session, action) = advance(session, Event::Path("/x/y.db".to_string()), &said);
    assert_eq!(
        action,
        Action::Copy { from: Location::Database, to: Location::Backup(name.clone()) }
    );
    assert_eq!(session.path, "/x/y.db");
    let (session, action) = advance(session, Event::Done, &said);
    assert_eq!(action, Action::Measure(Location::Backup(name.clone())));
    let (session, action) = advance(session, Event::Size(77), &said);
    assert_eq!(
        action,
        Action::Finish(Outcome::Backup(BackupResult {
            filename: name,
            path: "/x/y.db".to_string(),
            file_size: 77,
            created_at: NOW.to_string(),
        }))
    );
    assert_eq!(session.phase, Phase::Finished);
}

// ---- the directories

#[test]
fn a_failed_lookup_is_a_path_resolution_error() {
    let mut disk = Disk::new();
    disk.config_dir = Err("unknown path".to_string());
    for request in [
        Request::BackupDatabase,
        Request::ListBackups,
        restore("a.db"),
        import("/tmp/a.db"),
        export("a.db", "/tmp/b.db"),
        delete("a.db"),
        Request::GetBackupsPath,
    ] {
        let outcome = perform(&mut disk, request);
        assert_eq!(outcome, error(ErrorKind::PathResolution, "unknown path"));
    }
    assert!(disk.log.is_empty());
}

#[test]
fn the_backup_directory_is_made_when_missing() {
    let mut disk = Disk::new();
    disk.has_backups_dir = false;
    let outcome = perform(&mut disk, Request::GetBackupsPath);
    assert_eq!(outcome, Outcome::Path("/cfg/backups".to_string()));
    assert!(disk.has_backups_dir);
    assert_eq!(disk.log, vec!["mkdir"]);
}

#[test]
fn the_backup_directory_is_left_alone_when_present() {
    let mut disk = Disk::new();
    let outcome = perform(&mut disk, Request::GetBackupsPath);
    assert_eq!(outcome, Outcome::Path("/cfg/backups".to_string()));
    assert!(disk.log.is_empty());
}

#[test]
fn a_directory_that_cannot_be_made_is_an_io_error() {
    let session =
        Session { phase: Phase::CreatingBackupsDir, ..new_session(Request::ListBackups) };
    let (after, action) = get_backups_dir(session, Event::Failed("Permission denied".to_string()));
    assert_eq!(action, Action::Finish(error(ErrorKind::Io, "Permission denied")));
    assert_eq!(after.phase, Phase::Finished);
}

#[test]
fn each_operation_begins_with_its_own_probe() {
    let cases = [
        (Request::BackupDatabase, Action::Probe(Location::Database)),
        (Request::ListBackups, Action::ReadDir(Location::BackupsDir)),
        (restore("a.db"), Action::Probe(Location::Backup("a.db".to_string()))),
        (import("/tmp/a.db"), Action::Probe(Location::External("/tmp/a.db".to_string()))),
        (export("a.db", "/tmp/b"), Action::Probe(Location::Backup("a.db".to_string()))),
        (delete("a.db"), Action::Probe(Location::Backup("a.db".to_string()))),
        (Request::GetBackupsPath, Action::Resolve(Location::BackupsDir)),
    ];
    for (request, expected) in cases {
        let session = Session { phase: Phase::ProbingBackupsDir, ..new_session(request) };
        let (_, action) = get_backups_dir(session, Event::Present(true));
        assert_eq!(action, expected);
    }
}

#[test]
fn an_answer_that_does_not_fit_ends_the_operation() {
    let session = new_session(Request::ListBackups);
    let (after, action) = step(session, Event::Size(3));
    assert_eq!(
        action,
        Action::Finish(error(ErrorKind::Io, "Unexpected reply from the file system"))
    );
    assert_eq!(after.phase, Phase::Finished);
    let (_, again) = step(after, Event::Done);
    assert_eq!(
        again,
        Action::Finish(error(ErrorKind::Io, "Unexpected reply from the file system"))
    );
}

#[test]
fn a_step_of_another_operation_is_refused() {
    let confused = Action::Finish(error(ErrorKind::Io, "Unexpected reply from the file system"));
    let probing = |request: Request| Session { phase: Phase::ProbingSource, ..new_session(request) };
    let said = readings(STAMP);
    assert_eq!(backup_database(probing(delete("a.db")), Event::Present(true), &said).1, confused);
    assert_eq!(list_backups(probing(delete("a.db")), Event::Present(true), &said).1, confused);
    assert_eq!(restore_database(probing(delete("a.db")), Event::Present(true), &said).1, confused);
    assert_eq!(import_backup(probing(delete("a.db")), Event::Present(true), &said).1, confused);
    assert_eq!(export_backup(probing(delete("a.db")), Event::Present(true)).1, confused);
    assert_eq!(delete_backup(probing(restore("a.db")), Event::Present(true)).1, confused);
    assert_eq!(get_backups_path(probing(restore("a.db")), Event::Present(true)).1, confused);
}

// ---- listing

#[test]
fn an_empty_directory_lists_nothing() {
    let mut disk = Disk::new();
    assert_eq!(perform(&mut disk, Request::ListBackups), Outcome::Listing(Vec::new()));
}

#[test]
fn a_directory_that_cannot_be_read_lists_nothing() {
    let session = Session { phase: Phase::Reading, ..new_session(Request::ListBackups) };
    let (after, action) =
        list_backups(session, Event::Failed("Permission denied".to_string()), &readings(STAMP));
    assert_eq!(action, Action::Finish(Outcome::Listing(Vec::new())));
    assert_eq!(after.phase, Phase::Finished);
}

#[test]
fn listing_is_newest_first_and_holds_backups_only() {
    let mut disk = Disk::new()
        .with("/cfg/backups/motormods_backup_2024-01-01_00-00-00.db", b"1")
        .with("/cfg/backups/pre_restore_safety_2024-01-02_00-00-00.db", b"22")
        .with("/cfg/backups/notes.txt", b"333")
        .with("/cfg/backups/motormods_backup_2024-01-03_00-00-00.db", b"4444")
        .with("/cfg/elsewhere.db", b"55555");
    let lines = listing(&mut disk);
    let shown: Vec<(&str, u64)> =
        lines.iter().map(|l| (l.filename.as_str(), l.file_size)).collect();
    assert_eq!(
        shown,
        vec![
            ("motormods_backup_2024-01-03_00-00-00.db", 4),
            ("pre_restore_safety_2024-01-02_00-00-00.db", 2),
            ("motormods_backup_2024-01-01_00-00-00.db", 1),
        ]
    );
    assert_eq!(lines[0].path, "/cfg/backups/motormods_backup_2024-01-03_00-00-00.db");
}

#[test]
fn listing_with_the_real_clock_is_newest_first() {
    let mut disk = Disk::new()
        .with("/cfg/backups/a.db", b"1")
        .with("/cfg/backups/b.db", b"22")
        .with("/cfg/backups/c.db", b"333");
    let lines = match perform_now(&mut disk, Request::ListBackups) {
        Outcome::Listing(lines) => lines,
        other => panic!("no listing: {:?}", other),
    };
    let names: Vec<&str> = lines.iter().map(|l| l.filename.as_str()).collect();
    assert_eq!(names, vec!["c.db", "b.db", "a.db"]);
    for l in lines.iter() {
        assert!(chrono::DateTime::parse_from_rfc3339(&l.modified_at).is_ok());
    }
}

// ---- restoring

#[test]
fn restore_saves_the_database_and_puts_the_backup_in_its_place() {
    let mut disk = Disk::new()
        .with("/cfg/motormods.db", b"live")
        .with("/cfg/backups/old.db", b"from the backup");
    let outcome = perform(&mut disk, restore("old.db"));
    assert_eq!(
        outcome,
        Outcome::Message(
            "Database restored from old.db. Safety backup created: pre_restore_safety_2024-03-09_17-05-42.db"
                .to_string()
        )
    );
    assert_eq!(disk.bytes("/cfg/motormods.db"), Some(b"from the backup".to_vec()));
    assert_eq!(
        disk.bytes("/cfg/backups/pre_restore_safety_2024-03-09_17-05-42.db"),
        Some(b"live".to_vec())
    );
    assert_eq!(disk.bytes("/cfg/backups/old.db"), Some(b"from the backup".to_vec()));
    assert_eq!(
        disk.log,
        vec![
            "copy /cfg/motormods.db -> /cfg/backups/pre_restore_safety_2024-03-09_17-05-42.db",
            "copy /cfg/backups/old.db -> /cfg/motormods.db",
        ]
    );
}

#[test]
fn restore_without_a_database_makes_no_safety_backup_but_names_it() {
    let mut disk = Disk::new().with("/cfg/backups/old.db", b"from the backup");
    let outcome = perform(&mut disk, restore("old.db"));
    assert_eq!(
        outcome,
        Outcome::Message(
            "Database restored from old.db. Safety backup created: pre_restore_safety_2024-03-09_17-05-42.db"
                .to_string()
        )
    );
    assert_eq!(disk.bytes("/cfg/motormods.db"), Some(b"from the backup".to_vec()));
    assert_eq!(disk.bytes("/cfg/backups/pre_restore_safety_2024-03-09_17-05-42.db"), None);
    assert_eq!(disk.log, vec!["copy /cfg/backups/old.db -> /cfg/motormods.db"]);
}

#[test]
fn restoring_twice_gives_the_same_database_and_two_safety_backups() {
    let mut disk = Disk::new()
        .with("/cfg/motormods.db", b"live")
        .with("/cfg/backups/old.db", b"from the backup");
    perform_at(&mut disk, restore("old.db"), "2024-03-09_17-05-42");
    let once = disk.bytes("/cfg/motormods.db");
    perform_at(&mut disk, restore("old.db"), "2024-03-09_17-05-43");
    let twice = disk.bytes("/cfg/motormods.db");
    assert_eq!(once, Some(b"from the backup".to_vec()));
    assert_eq!(twice, once);
    assert_eq!(
        disk.bytes("/cfg/backups/pre_restore_safety_2024-03-09_17-05-42.db"),
        Some(b"live".to_vec())
    );
    assert_eq!(
        disk.bytes("/cfg/backups/pre_restore_safety_2024-03-09_17-05-43.db"),
        Some(b"from the backup".to_vec())
    );
}

#[test]
fn restore_of_a_missing_backup_is_not_found_and_changes_nothing() {
    let mut disk = Disk::new().with("/cfg/motormods.db", b"live");
    let before = disk.clone();
    let outcome = perform(&mut disk, restore("nowhere.db"));
    assert_eq!(outcome, error(ErrorKind::NotFound, "Backup file not found: nowhere.db"));
    assert_eq!(disk, before);
}

#[test]
fn restore_reports_failed_copies() {
    let said = readings(STAMP);
    let at = |phase: Phase| Session {
        phase,
        filename: "pre_restore_safety_2024-03-09_17-05-42.db".to_string(),
        ..new_session(restore("old.db"))
    };
    let (_, action) =
        restore_database(at(Phase::Protecting), Event::Failed("disk full".to_string()), &said);
    assert_eq!(
        action,
        Action::Finish(error(ErrorKind::Io, "Failed to create safety backup: disk full"))
    );
    let (_, action) =
        restore_database(at(Phase::Copying), Event::Failed("disk full".to_string()), &said);
    assert_eq!(
        action,
        Action::Finish(error(ErrorKind::Io, "Failed to restore database: disk full"))
    );
}

// ---- importing

#[test]
fn import_saves_the_database_and_puts_the_file_in_its_place() {
    let mut disk = Disk::new()
        .with("/cfg/motormods.db", b"live")
        .with("/home/me/copy.db", b"from outside");
    let outcome = perform(&mut disk, import("/home/me/copy.db"));
    assert_eq!(
        outcome,
        Outcome::Message(
            "Database imported from external backup. Safety backup created: pre_import_safety_2024-03-09_17-05-42.db"
                .to_string()
        )
    );
    assert_eq!(disk.bytes("/cfg/motormods.db"), Some(b"from outside".to_vec()));
    assert_eq!(
        disk.bytes("/cfg/backups/pre_import_safety_2024-03-09_17-05-42.db"),
        Some(b"live".to_vec())
    );
    assert_eq!(
        disk.log,
        vec![
            "copy /cfg/motormods.db -> /cfg/backups/pre_import_safety_2024-03-09_17-05-42.db",
            "copy /home/me/copy.db -> /cfg/motormods.db",
        ]
    );
}

#[test]
fn import_without_a_database_makes_no_safety_backup() {
    let mut disk = Disk::new().with("/home/me/copy.db", b"from outside");
    let outcome = perform(&mut disk, import("/home/me/copy.db"));
    assert!(matches!(outcome, Outcome::Message(_)));
    assert_eq!(disk.bytes("/cfg/motormods.db"), Some(b"from outside".to_vec()));
    assert_eq!(disk.log, vec!["copy /home/me/copy.db -> /cfg/motormods.db"]);
}

#[test]
fn import_of_notes_txt_is_refused_without_a_safety_backup() {
    let mut disk = Disk::new()
        .with("/cfg/motormods.db", b"live")
        .with("notes.txt", b"some notes");
    let before = disk.clone();
    let outcome = perform(&mut disk, import("notes.txt"));
    assert_eq!(
        outcome,
        error(ErrorKind::InvalidInput, "Invalid backup file. Expected .db file")
    );
    assert_eq!(disk, before);
    assert!(disk.log.is_empty());
}

#[test]
fn import_of_a_missing_file_is_refused() {
    let mut disk = Disk::new().with("/cfg/motormods.db", b"live");
    let before = disk.clone();
    for path in ["/home/me/nowhere.db", "/home/me/nowhere.txt"] {
        let outcome = perform(&mut disk, import(path));
        assert_eq!(outcome, error(ErrorKind::InvalidInput, "Source backup file not found"));
    }
    assert_eq!(disk, before);
}

#[test]
fn import_reports_failed_copies() {
    let said = readings(STAMP);
    let at = |phase: Phase| Session {
        phase,
        filename: "pre_import_safety_2024-03-09_17-05-42.db".to_string(),
        ..new_session(import("/home/me/copy.db"))
    };
    let (_, action) =
        import_backup(at(Phase::Protecting), Event::Failed("disk full".to_string()), &said);
    assert_eq!(
        action,
        Action::Finish(error(ErrorKind::Io, "Failed to create safety backup: disk full"))
    );
    let (_, action) =
        import_backup(at(Phase::Copying), Event::Failed("disk full".to_string()), &said);
    assert_eq!(
        action,
        Action::Finish(error(ErrorKind::Io, "Failed to import backup: disk full"))
    );
}

// ---- exporting

#[test]
fn export_copies_the_backup_to_the_destination() {
    let mut disk = Disk::new()
        .with("/cfg/backups/old.db", b"from the backup")
        .with("/home/me/anything.txt", b"in the way");
    let outcome = perform(&mut disk, export("old.db", "/home/me/anything.txt"));
    assert_eq!(outcome, Outcome::Message("Backup exported to: /home/me/anything.txt".to_string()));
    assert_eq!(disk.bytes("/home/me/anything.txt"), Some(b"from the backup".to_vec()));
    assert_eq!(disk.bytes("/cfg/backups/old.db"), Some(b"from the backup".to_vec()));
}

#[test]
fn export_of_a_missing_backup_is_not_found_and_changes_nothing() {
    let mut disk = Disk::new().with("/home/me/out.db", b"in the way");
    let before = disk.clone();
    let outcome = perform(&mut disk, export("nowhere.db", "/home/me/out.db"));
    assert_eq!(outcome, error(ErrorKind::NotFound, "Backup file not found: nowhere.db"));
    assert_eq!(disk, before);
}

#[test]
fn export_reports_a_failed_copy() {
    let session = Session { phase: Phase::Copying, ..new_session(export("old.db", "/ro/out.db")) };
    let (_, action) = export_backup(session, Event::Failed("Read-only file system".to_string()));
    assert_eq!(
        action,
        Action::Finish(error(ErrorKind::Io, "Failed to export backup: Read-only file system"))
    );
}

// ---- deleting

#[test]
fn delete_removes_the_backup() {
    let mut disk = Disk::new()
        .with("/cfg/backups/old.db", b"from the backup")
        .with("/cfg/backups/other.db", b"another");
    let outcome = perform(&mut disk, delete("old.db"));
    assert_eq!(outcome, Outcome::Message("Backup deleted: old.db".to_string()));
    assert_eq!(disk.bytes("/cfg/backups/old.db"), None);
    assert_eq!(disk.bytes("/cfg/backups/other.db"), Some(b"another".to_vec()));
    assert_eq!(disk.log, vec!["remove /cfg/backups/old.db"]);
}

#[test]
fn delete_of_a_missing_backup_is_not_found_and_changes_nothing() {
    let mut disk = Disk::new().with("/cfg/backups/other.db", b"another");
    let before = disk.clone();
    for name in ["nowhere.db", "nowhere.txt"] {
        let outcome = perform(&mut disk, delete(name));
        assert_eq!(
            outcome,
            error(ErrorKind::NotFound, &format!("Backup file not found: {}", name))
        );
    }
    assert_eq!(disk, before);
}

#[test]
fn delete_of_another_kind_of_file_is_refused() {
    let mut disk = Disk::new()
        .with("/cfg/backups/notes.txt", b"keep me")
        .with("/cfg/backups/.db", b"hidden");
    let before = disk.clone();
    for name in ["notes.txt", ".db"] {
        let outcome = perform(&mut disk, delete(name));
        assert_eq!(outcome, error(ErrorKind::InvalidInput, "Can only delete .db backup files"));
    }
    assert_eq!(disk, before);
}

#[test]
fn delete_reports_a_failed_removal() {
    let session = Session { phase: Phase::Removing, ..new_session(delete("old.db")) };
    let (_, action) = delete_backup(session, Event::Failed("Permission denied".to_string()));
    assert_eq!(
        action,
        Action::Finish(error(ErrorKind::Io, "Failed to delete backup: Permission denied"))
    );
}

// ---- with the real clock

fn is_stamp(text: &str) -> bool {
    let c: Vec<char> = text.chars().collect();
    if c.len() != 19 {
        return false;
    }
    c.iter().enumerate().all(|(i, ch)| match i {
        4 | 7 | 13 | 16 => *ch == '-',
        10 => *ch == '_',
        _ => ch.is_ascii_digit(),
    })
}

#[test]
fn a_backup_made_now_is_named_after_the_time() {
    let mut disk = Disk::new().with("/cfg/motormods.db", b"live data");
    let made = match perform_now(&mut disk, Request::BackupDatabase) {
        Outcome::Backup(result) => result,
        other => panic!("no backup: {:?}", other),
    };
    let stamp = made
        .filename
        .strip_prefix("motormods_backup_")
        .and_then(|rest| rest.strip_suffix(".db"))
        .unwrap();
    assert!(is_stamp(stamp), "{}", stamp);
    assert_eq!(made.path, format!("/cfg/backups/{}", made.filename));
    assert_eq!(made.file_size, 9);
    assert_eq!(disk.bytes(&made.path), Some(b"live data".to_vec()));
    let created = chrono::DateTime::parse_from_rfc3339(&made.created_at).unwrap();
    let named = chrono::NaiveDateTime::parse_from_str(stamp, "%Y-%m-%d_%H-%M-%S").unwrap();
    let apart = created.naive_local().signed_duration_since(named).num_seconds();
    assert!((0..=5).contains(&apart), "{} and {}", stamp, made.created_at);
}

#[test]
fn a_restore_made_now_names_its_safety_backup_after_the_time() {
    let mut disk = Disk::new()
        .with("/cfg/motormods.db", b"live")
        .with("/cfg/backups/old.db", b"from the backup");
    let message = match perform_now(&mut disk, restore("old.db")) {
        Outcome::Message(text) => text,
        other => panic!("no message: {:?}", other),
    };
    let name = message
        .strip_prefix("Database restored from old.db. Safety backup created: ")
        .unwrap();
    let stamp =
        name.strip_prefix("pre_restore_safety_").and_then(|r| r.strip_suffix(".db")).unwrap();
    assert!(is_stamp(stamp), "{}", stamp);
    assert_eq!(disk.bytes(&format!("/cfg/backups/{}", name)), Some(b"live".to_vec()));
    assert_eq!(disk.bytes("/cfg/motormods.db"), Some(b"from the backup".to_vec()));
}

#[test]
fn an_import_made_now_names_its_safety_backup_after_the_time() {
    let mut disk = Disk::new()
        .with("/cfg/motormods.db", b"live")
        .with("/home/me/copy.db", b"from outside");
    let message = match perform_now(&mut disk, import("/home/me/copy.db")) {
        Outcome::Message(text) => text,
        other => panic!("no message: {:?}", other),
    };
    let name = message
        .strip_prefix("Database imported from external backup. Safety backup created: ")
        .unwrap();
    let stamp =
        name.strip_prefix("pre_import_safety_").and_then(|r| r.strip_suffix(".db")).unwrap();
    assert!(is_stamp(stamp), "{}", stamp);
    assert_eq!(disk.bytes(&format!("/cfg/backups/{}", name)), Some(b"live".to_vec()));
}

#[test]
fn refusals_with_the_real_clock() {
    let mut disk = Disk::new().with("notes.txt", b"some notes");
    let before = disk.clone();
    assert_eq!(
        perform_now(&mut disk, import("notes.txt")),
        error(ErrorKind::InvalidInput, "Invalid backup file. Expected .db file")
    );
    assert_eq!(
        perform_now(&mut disk, Request::BackupDatabase),
        error(ErrorKind::NotFound, "Database file not found")
    );
    assert_eq!(perform_now(&mut disk, Request::ListBackups), Outcome::Listing(Vec::new()));
    assert_eq!(disk, before);
}
