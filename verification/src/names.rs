//! The fixed names of the files that the backup manager keeps, and the names
//! it gives to the backups it makes.

use crate::clock::{is_stamp, lemma_stamp_chars};
use crate::text::{ends_in_db, is_separator};
use vstd::prelude::*;

verus! {

/// `a`, `b` and `c` in a row.
pub fn join3(a: &str, b: &str, c: &str) -> (r: String)
    ensures
        r@ == a@ + b@ + c@,
{
    String::from_str(a).concat(b).concat(c)
}

/// The name of the live database file in the configuration directory.
pub fn database_file_name() -> (r: String)
    ensures
        r@ == "motormods.db"@,
{
    String::from_str("motormods.db")
}

/// The name of the backup directory in the configuration directory.
pub fn backups_dir_name() -> (r: String)
    ensures
        r@ == "backups"@,
{
    String::from_str("backups")
}

/// The name of a backup made at the time that `stamp` shows.
pub open spec fn backup_name(stamp: Seq<char>) -> Seq<char> {
    "motormods_backup_"@ + stamp + ".db"@
}

/// The name of the safety backup that a restore at the time of `stamp`
/// makes.
pub open spec fn restore_safety_name(stamp: Seq<char>) -> Seq<char> {
    "pre_restore_safety_"@ + stamp + ".db"@
}

/// The name of the safety backup that an import at the time of `stamp`
/// makes.
pub open spec fn import_safety_name(stamp: Seq<char>) -> Seq<char> {
    "pre_import_safety_"@ + stamp + ".db"@
}

/// The name of a backup made at the time that `stamp` shows.
pub fn backup_file_name(stamp: &str) -> (r: String)
    ensures
        r@ == backup_name(stamp@),
{
    join3("motormods_backup_", stamp, ".db")
}

/// The name of the safety backup that a restore at the time of `stamp`
/// makes.
pub fn restore_safety_file_name(stamp: &str) -> (r: String)
    ensures
        r@ == restore_safety_name(stamp@),
{
    join3("pre_restore_safety_", stamp, ".db")
}

/// The name of the safety backup that an import at the time of `stamp`
/// makes.
pub fn import_safety_file_name(stamp: &str) -> (r: String)
    ensures
        r@ == import_safety_name(stamp@),
{
    join3("pre_import_safety_", stamp, ".db")
}

/// A name that denotes a file directly in a directory: not empty, without
/// a separator, and neither `.` nor `..`.
pub open spec fn is_plain_name(name: Seq<char>) -> bool {
    &&& name.len() > 0
    &&& forall|i: int| 0 <= i < name.len() ==> !is_separator(#[trigger] name[i])
    &&& name != seq!['.']
    &&& name != seq!['.', '.']
}

/// A text that ends in a stamp and `.db`, whatever stands in front, is
/// named like a backup file.
pub proof fn lemma_stamped_name_ends_in_db(prefix: Seq<char>, stamp: Seq<char>)
    requires
        is_stamp(stamp),
    ensures
        ends_in_db(prefix + stamp + ".db"@),
{
    reveal_strlit(".db");
    lemma_stamp_chars(stamp);
    let name = prefix + stamp + ".db"@;
    let n = name.len() as int;
    assert(name[n - 4] == stamp[stamp.len() - 1]);
    assert(name[n - 3] == ".db"@[0]);
    assert(name[n - 2] == ".db"@[1]);
    assert(name[n - 1] == ".db"@[2]);
}

/// Every file that the manager makes in the backup directory is named like
/// a backup file.
pub proof fn lemma_made_names_end_in_db(stamp: Seq<char>)
    requires
        is_stamp(stamp),
    ensures
        ends_in_db(backup_name(stamp)),
        ends_in_db(restore_safety_name(stamp)),
        ends_in_db(import_safety_name(stamp)),
{
    lemma_stamped_name_ends_in_db("motormods_backup_"@, stamp);
    lemma_stamped_name_ends_in_db("pre_restore_safety_"@, stamp);
    lemma_stamped_name_ends_in_db("pre_import_safety_"@, stamp);
}

/// Names made of different stamps are different.
pub proof fn lemma_names_differ(prefix: Seq<char>, first: Seq<char>, second: Seq<char>)
    requires
        first != second,
    ensures
        prefix + first + ".db"@ != prefix + second + ".db"@,
{
    let a = prefix + first + ".db"@;
    let b = prefix + second + ".db"@;
    if a == b {
        assert(first.len() == second.len()) by {
            assert(a.len() == prefix.len() + first.len() + ".db"@.len());
            assert(b.len() == prefix.len() + second.len() + ".db"@.len());
        }
        assert forall|i: int| 0 <= i < first.len() implies first[i] == second[i] by {
            assert(a[prefix.len() + i] == first[i]);
            assert(b[prefix.len() + i] == second[i]);
        }
        assert(first =~= second);
    }
}

} // verus!
