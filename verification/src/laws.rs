//! What holds of whole operations, proved over the model of the files.

use crate::clock::is_stamp;
use crate::listing::{lemma_shown_with_one_more, listing_of, shown};
use crate::manager::restored_message;
use crate::model::{perform, run, Disk};
use crate::names::{
    backup_name, is_plain_name, lemma_made_names_end_in_db, lemma_names_differ,
    restore_safety_name,
};
use crate::protocol::{LocationView, OutcomeView, ReadingsView, RequestView};
use crate::text::{ends_in_db, ends_with, lemma_ends_in_db};
use crate::types::{BackupErrorView, BackupResultView, ErrorKind};
use vstd::prelude::*;

verus! {

/// The outcome is a failure of kind `kind` with the message `message`.
pub open spec fn is_failure(
    outcome: Option<OutcomeView>,
    kind: ErrorKind,
    message: Seq<char>,
) -> bool {
    outcome == Some(OutcomeView::Error(BackupErrorView { kind, message }))
}

/// Restoring a backup that does not exist fails with `NotFound`, and
/// leaves every file as it was; at most the backup directory is made.
pub proof fn law_restore_of_missing_backup(
    disk: Disk,
    backup_filename: Seq<char>,
    readings: ReadingsView,
)
    requires
        disk.well_formed(),
        disk.lookup_failure is None,
        !disk.holds(LocationView::Backup(backup_filename)),
    ensures
        perform(RequestView::RestoreDatabase { backup_filename }, disk, readings).0
            == disk.with_backups_dir(),
        is_failure(
            perform(RequestView::RestoreDatabase { backup_filename }, disk, readings).1,
            ErrorKind::NotFound,
            "Backup file not found: "@ + backup_filename,
        ),
{
    reveal_with_fuel(run, 6);
}

/// Exporting a backup that does not exist fails with `NotFound`, and
/// leaves every file as it was; at most the backup directory is made.
pub proof fn law_export_of_missing_backup(
    disk: Disk,
    backup_filename: Seq<char>,
    destination_path: Seq<char>,
    readings: ReadingsView,
)
    requires
        disk.well_formed(),
        disk.lookup_failure is None,
        !disk.holds(LocationView::Backup(backup_filename)),
    ensures
        perform(
            RequestView::ExportBackup { backup_filename, destination_path },
            disk,
            readings,
        ).0 == disk.with_backups_dir(),
        is_failure(
            perform(
                RequestView::ExportBackup { backup_filename, destination_path },
                disk,
                readings,
            ).1,
            ErrorKind::NotFound,
            "Backup file not found: "@ + backup_filename,
        ),
{
    reveal_with_fuel(run, 6);
}

/// Deleting a backup that does not exist fails with `NotFound`, and leaves
/// every file as it was; at most the backup directory is made.
pub proof fn law_delete_of_missing_backup(
    disk: Disk,
    backup_filename: Seq<char>,
    readings: ReadingsView,
)
    requires
        disk.well_formed(),
        disk.lookup_failure is None,
        !disk.holds(LocationView::Backup(backup_filename)),
    ensures
        perform(RequestView::DeleteBackup { backup_filename }, disk, readings).0
            == disk.with_backups_dir(),
        is_failure(
            perform(RequestView::DeleteBackup { backup_filename }, disk, readings).1,
            ErrorKind::NotFound,
            "Backup file not found: "@ + backup_filename,
        ),
{
    reveal_with_fuel(run, 6);
}

/// Deleting a file that exists but whose name does not end with `.db`
/// fails with `InvalidInput`, and leaves every file as it was.
pub proof fn law_delete_of_other_file(
    disk: Disk,
    backup_filename: Seq<char>,
    readings: ReadingsView,
)
    requires
        disk.well_formed(),
        disk.lookup_failure is None,
        disk.holds(LocationView::Backup(backup_filename)),
        !ends_with(backup_filename, ".db"@),
    ensures
        perform(RequestView::DeleteBackup { backup_filename }, disk, readings).0
            == disk.with_backups_dir(),
        is_failure(
            perform(RequestView::DeleteBackup { backup_filename }, disk, readings).1,
            ErrorKind::InvalidInput,
            "Can only delete .db backup files"@,
        ),
{
    reveal_with_fuel(run, 6);
    if ends_in_db(backup_filename) {
        lemma_ends_in_db(backup_filename);
    }
}

/// Importing a file whose name does not end with `.db` fails with
/// `InvalidInput`, whether or not the file exists, and leaves every file
/// as it was: no safety backup is made.
pub proof fn law_import_of_other_file(disk: Disk, source_path: Seq<char>, readings: ReadingsView)
    requires
        disk.well_formed(),
        disk.lookup_failure is None,
        !ends_with(source_path, ".db"@),
    ensures
        perform(RequestView::ImportBackup { source_path }, disk, readings).0
            == disk.with_backups_dir(),
        is_failure(
            perform(RequestView::ImportBackup { source_path }, disk, readings).1,
            ErrorKind::InvalidInput,
            if disk.holds(LocationView::External(source_path)) {
                "Invalid backup file. Expected .db file"@
            } else {
                "Source backup file not found"@
            },
        ),
{
    reveal_with_fuel(run, 6);
    if ends_in_db(source_path) {
        lemma_ends_in_db(source_path);
    }
}

/// Without a database, making a backup fails with `NotFound`, and leaves
/// every file as it was; at most the backup directory is made.
pub proof fn law_backup_without_database(disk: Disk, readings: ReadingsView)
    requires
        disk.well_formed(),
        disk.lookup_failure is None,
        !disk.holds(LocationView::Database),
    ensures
        perform(RequestView::BackupDatabase, disk, readings).0 == disk.with_backups_dir(),
        is_failure(
            perform(RequestView::BackupDatabase, disk, readings).1,
            ErrorKind::NotFound,
            "Database file not found"@,
        ),
{
    reveal_with_fuel(run, 6);
}

/// Restoring the same backup twice leaves the database with the same bytes
/// both times: those of the backup, unless the backup bears the very name
/// of the safety backup that the restore makes. Each restore saves the
/// database that it finds to a safety backup of its own, named after the
/// time; at different times the two names differ.
///
/// This is stated of a backup named by a plain file name. A name with a
/// separator in it may lead out of the backup directory, even to the
/// database itself, and of such a file the model tells nothing.
pub proof fn law_restore_twice(
    disk: Disk,
    backup_filename: Seq<char>,
    first: ReadingsView,
    second: ReadingsView,
)
    requires
        disk.well_formed(),
        disk.lookup_failure is None,
        disk.holds(LocationView::Backup(backup_filename)),
        is_plain_name(backup_filename),
    ensures
        ({
            let request = RequestView::RestoreDatabase { backup_filename };
            let backup = LocationView::Backup(backup_filename);
            let first_safety = LocationView::Backup(restore_safety_name(first.stamp));
            let second_safety = LocationView::Backup(restore_safety_name(second.stamp));
            let (once, first_outcome) = perform(request, disk, first);
            let (twice, second_outcome) = perform(request, once, second);
            &&& first_outcome == Some(
                OutcomeView::Message(
                    restored_message(backup_filename) + restore_safety_name(first.stamp),
                ),
            )
            &&& second_outcome == Some(
                OutcomeView::Message(
                    restored_message(backup_filename) + restore_safety_name(second.stamp),
                ),
            )
            &&& once.holds(LocationView::Database)
            &&& twice.holds(LocationView::Database)
            &&& twice.files[LocationView::Database] == once.files[LocationView::Database]
            &&& first_safety != backup ==> once.files[LocationView::Database] == disk.files[backup]
            &&& disk.holds(LocationView::Database) ==> once.holds(first_safety)
                && once.files[first_safety] == disk.files[LocationView::Database]
            &&& twice.holds(second_safety) && twice.files[second_safety]
                == once.files[LocationView::Database]
            &&& first.stamp != second.stamp ==> first_safety != second_safety
        }),
{
    let request = RequestView::RestoreDatabase { backup_filename };
    reveal_with_fuel(run, 9);
    let (once, first_outcome) = perform(request, disk, first);
    assert(once.has_backups_dir);
    assert(once.holds(LocationView::Backup(backup_filename)));
    if first.stamp != second.stamp {
        lemma_names_differ("pre_restore_safety_"@, first.stamp, second.stamp);
    }
}

/// Listing the backups reads the backup directory and changes no file.
pub proof fn law_listing(disk: Disk, readings: ReadingsView)
    requires
        disk.well_formed(),
        disk.lookup_failure is None,
    ensures
        perform(RequestView::ListBackups, disk, readings) == (
            disk.with_backups_dir(),
            Some(OutcomeView::Listing(listing_of(disk.entries(), readings.modified))),
        ),
{
    reveal_with_fuel(run, 6);
    assert(disk.with_backups_dir().entries() =~= disk.entries());
}

/// Making a backup adds one file to the backup directory, with the bytes of
/// the database, and changes no other; the result tells that file's name,
/// path and size. A listing made afterwards shows what a listing made
/// before showed, and the new backup with the size of the database once
/// more.
///
/// This is stated of a backup whose name is not taken yet: a second backup
/// within the same second takes the place of the first.
pub proof fn law_backup_then_list(
    disk: Disk,
    readings: ReadingsView,
    before: ReadingsView,
    after: ReadingsView,
)
    requires
        disk.well_formed(),
        disk.lookup_failure is None,
        disk.holds(LocationView::Database),
        is_stamp(readings.stamp),
        !disk.holds(LocationView::Backup(backup_name(readings.stamp))),
    ensures
        ({
            let name = backup_name(readings.stamp);
            let bytes = disk.files[LocationView::Database];
            let (saved, outcome) = perform(RequestView::BackupDatabase, disk, readings);
            let listed_before = listing_of(disk.entries(), before.modified);
            let listed_after = listing_of(saved.entries(), after.modified);
            &&& outcome == Some(
                OutcomeView::Backup(
                    BackupResultView {
                        filename: name,
                        path: (disk.path_of)(LocationView::Backup(name)),
                        file_size: bytes.len() as u64,
                        created_at: readings.now,
                    },
                ),
            )
            &&& saved == disk.with_backups_dir().with_file(LocationView::Backup(name), bytes)
            &&& saved.files == disk.files.insert(LocationView::Backup(name), bytes)
            &&& perform(RequestView::ListBackups, disk, before).1 == Some(
                OutcomeView::Listing(listed_before),
            )
            &&& perform(RequestView::ListBackups, saved, after).1 == Some(
                OutcomeView::Listing(listed_after),
            )
            &&& listed_after.len() == listed_before.len() + 1
            &&& shown(listed_after) == shown(listed_before).insert((name, bytes.len() as u64))
        }),
{
    let name = backup_name(readings.stamp);
    let place = LocationView::Backup(name);
    let bytes = disk.files[LocationView::Database];
    reveal_with_fuel(run, 9);
    let (saved, outcome) = perform(RequestView::BackupDatabase, disk, readings);
    assert(saved == disk.with_backups_dir().with_file(place, bytes));
    assert(!disk.order.contains(name));
    assert(saved.order == disk.order.push(name));
    assert(saved.entries() =~= disk.entries().push(saved.entry(name))) by {
        assert forall|i: int| 0 <= i < disk.order.len() implies saved.entry(disk.order[i])
            == disk.entry(disk.order[i]) by {
            assert(disk.order.contains(disk.order[i]));
        }
    }
    lemma_made_names_end_in_db(readings.stamp);
    lemma_shown_with_one_more(
        disk.entries(),
        saved.entry(name),
        before.modified,
        after.modified,
    );
    assert(saved.well_formed()) by {
        assert forall|other: Seq<char>| #[trigger]
            saved.order.contains(other) <==> saved.files.contains_key(
                LocationView::Backup(other),
            ) by {
            if other == name {
                assert(saved.order[saved.order.len() - 1] == name);
            } else if disk.order.contains(other) {
                let i = choose|i: int| 0 <= i < disk.order.len() && disk.order[i] == other;
                assert(saved.order[i] == other);
            }
        }
    }
    law_listing(disk, before);
    law_listing(saved, after);
}

/// Whatever is asked for, a file that the manager makes in the backup
/// directory is named like a backup file.
pub proof fn law_only_backup_files_are_made(
    request: RequestView,
    disk: Disk,
    readings: ReadingsView,
    name: Seq<char>,
)
    requires
        disk.well_formed(),
        is_stamp(readings.stamp),
        !disk.holds(LocationView::Backup(name)),
        perform(request, disk, readings).0.holds(LocationView::Backup(name)),
    ensures
        ends_in_db(name),
{
    reveal_with_fuel(run, 10);
    lemma_made_names_end_in_db(readings.stamp);
}

} // verus!
