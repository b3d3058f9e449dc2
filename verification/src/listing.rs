//! Turning the entries of the backup directory into a listing: backup files
//! only, newest first.

use crate::clock::{is_calendar_time, local_rfc3339};
use crate::text::{ends_in_db, has_db_extension, precedes, text_lt};
use crate::types::{BackupFileInfo, BackupFileInfoView};
use vstd::multiset::Multiset;
use vstd::prelude::*;

verus! {

/// A moment, counted from the start of 1970 in UTC.
#[derive(Clone, Copy, Debug, PartialEq, Eq, Structural)]
pub struct Timestamp {
    pub secs: i64,
    pub nanos: u32,
}

/// What the file system tells of a file.
#[derive(Clone, Copy, Debug, PartialEq, Eq)]
pub struct FileMetadata {
    pub file_size: u64,
    /// When the file was last modified, where the file system tells.
    pub modified: Option<Timestamp>,
}

/// One entry of a directory as it was read.
#[derive(Clone, Debug, PartialEq, Eq)]
pub struct DirEntry {
    pub filename: String,
    pub path: String,
    /// `None` where the entry's metadata could not be read.
    pub metadata: Option<FileMetadata>,
}

pub struct DirEntryView {
    pub filename: Seq<char>,
    pub path: Seq<char>,
    pub metadata: Option<FileMetadata>,
}

impl View for DirEntry {
    type V = DirEntryView;

    open spec fn view(&self) -> DirEntryView {
        DirEntryView { filename: self.filename@, path: self.path@, metadata: self.metadata }
    }
}

impl DeepView for DirEntry {
    type V = DirEntryView;

    open spec fn deep_view(&self) -> DirEntryView {
        self@
    }
}

/// The entry is shown in a listing: it is named like a backup file and its
/// metadata could be read.
pub open spec fn is_listed(entry: DirEntryView) -> bool {
    ends_in_db(entry.filename) && entry.metadata is Some
}

/// The entry's time of modification is to be asked of the clock.
pub open spec fn has_time(entry: DirEntryView) -> bool {
    is_listed(entry) && entry.metadata->0.modified is Some
}

/// The entry has a time of modification that the calendar holds.
pub open spec fn has_calendar_time(entry: DirEntryView) -> bool {
    has_time(entry) && is_calendar_time(
        entry.metadata->0.modified->0.secs,
        entry.metadata->0.modified->0.nanos,
    )
}

/// `readings` may be what the clock said of the times of modification of
/// `entries`: one answer for each entry; none where the entry has no time to
/// tell, and a text where the calendar holds the time.
pub open spec fn may_be_read_of(
    readings: Seq<Option<Seq<char>>>,
    entries: Seq<DirEntryView>,
) -> bool {
    &&& readings.len() == entries.len()
    &&& forall|i: int|
        0 <= i < entries.len() && !has_time(#[trigger] entries[i]) ==> readings[i] is None
    &&& forall|i: int|
        0 <= i < entries.len() && has_calendar_time(#[trigger] entries[i]) ==> readings[i]
            is Some
}

/// What the clock said of entry `i`, `None` where it was not asked.
pub open spec fn reading_at(readings: Seq<Option<Seq<char>>>, i: int) -> Option<Seq<char>> {
    if 0 <= i < readings.len() {
        readings[i]
    } else {
        None
    }
}

/// The listing's line for a listed entry, given what the clock said of its
/// time of modification. Where the file system told no time, or the clock
/// could not write it, the time reads `Unknown`.
pub open spec fn info_of(entry: DirEntryView, reading: Option<Seq<char>>) -> BackupFileInfoView {
    BackupFileInfoView {
        filename: entry.filename,
        path: entry.path,
        file_size: entry.metadata->0.file_size,
        modified_at: if entry.metadata->0.modified is Some && reading is Some {
            reading->0
        } else {
            "Unknown"@
        },
    }
}

/// The lines for the listed entries among `entries`, in the order of the
/// entries.
pub open spec fn collected(
    entries: Seq<DirEntryView>,
    readings: Seq<Option<Seq<char>>>,
) -> Seq<BackupFileInfoView>
    decreases entries.len(),
{
    if entries.len() == 0 {
        Seq::empty()
    } else {
        let before = collected(entries.drop_last(), readings);
        let entry = entries.last();
        if is_listed(entry) {
            before.push(info_of(entry, reading_at(readings, entries.len() - 1)))
        } else {
            before
        }
    }
}

/// Where a new line goes in a listing that is newest first: in front of the
/// first line that is older, behind all others.
pub open spec fn slot_for(lines: Seq<BackupFileInfoView>, line: BackupFileInfoView) -> int
    decreases lines.len(),
{
    if lines.len() == 0 {
        0
    } else if text_lt(lines[0].modified_at, line.modified_at) {
        0
    } else {
        1 + slot_for(lines.drop_first(), line)
    }
}

/// The lines ordered by time of modification, newest first; lines of the
/// same time keep their order.
pub open spec fn newest_first(lines: Seq<BackupFileInfoView>) -> Seq<BackupFileInfoView>
    decreases lines.len(),
{
    if lines.len() == 0 {
        lines
    } else {
        let sorted = newest_first(lines.drop_last());
        sorted.insert(slot_for(sorted, lines.last()), lines.last())
    }
}

/// No line stands in front of a newer one.
pub open spec fn is_newest_first(lines: Seq<BackupFileInfoView>) -> bool {
    forall|i: int, j: int|
        0 <= i < j < lines.len() ==> !text_lt(
            (#[trigger] lines[i]).modified_at,
            (#[trigger] lines[j]).modified_at,
        )
}

/// The listing made of `entries`: the lines of the listed entries, newest
/// first.
pub open spec fn listing_of(
    entries: Seq<DirEntryView>,
    readings: Seq<Option<Seq<char>>>,
) -> Seq<BackupFileInfoView> {
    newest_first(collected(entries, readings))
}

/// The slot lies within the listing; the lines in front of it are not
/// older than the new line, and the line at it is.
pub proof fn lemma_slot_for(lines: Seq<BackupFileInfoView>, line: BackupFileInfoView)
    ensures
        0 <= slot_for(lines, line) <= lines.len(),
        forall|i: int|
            0 <= i < slot_for(lines, line) ==> !text_lt(
                (#[trigger] lines[i]).modified_at,
                line.modified_at,
            ),
        slot_for(lines, line) < lines.len() ==> text_lt(
            lines[slot_for(lines, line)].modified_at,
            line.modified_at,
        ),
    decreases lines.len(),
{
    if lines.len() > 0 && !text_lt(lines[0].modified_at, line.modified_at) {
        let rest = lines.drop_first();
        lemma_slot_for(rest, line);
        assert forall|i: int| 0 <= i < slot_for(lines, line) implies !text_lt(
            (#[trigger] lines[i]).modified_at,
            line.modified_at,
        ) by {
            if i > 0 {
                assert(lines[i] == rest[i - 1]);
            }
        }
        if slot_for(lines, line) < lines.len() {
            assert(lines[slot_for(lines, line)] == rest[slot_for(rest, line)]);
        }
    }
}

/// Ordering keeps every line, as often as it stood there, and puts none in
/// front of a newer one.
pub proof fn lemma_newest_first(lines: Seq<BackupFileInfoView>)
    ensures
        newest_first(lines).len() == lines.len(),
        newest_first(lines).to_multiset() == lines.to_multiset(),
        is_newest_first(newest_first(lines)),
    decreases lines.len(),
{
    broadcast use vstd::seq_lib::group_to_multiset_ensures;

    if lines.len() > 0 {
        let init = lines.drop_last();
        let line = lines.last();
        let sorted = newest_first(init);
        let at = slot_for(sorted, line);
        let out = sorted.insert(at, line);
        lemma_newest_first(init);
        lemma_slot_for(sorted, line);
        assert(lines =~= init.push(line));
        assert(out.to_multiset() =~= sorted.to_multiset().insert(line));
        assert forall|i: int, j: int| 0 <= i < j < out.len() implies !text_lt(
            (#[trigger] out[i]).modified_at,
            (#[trigger] out[j]).modified_at,
        ) by {
            if j == at {
                assert(out[i] == sorted[i]);
            } else if i == at {
                // out[j] stands at or behind the first older line
                assert(out[j] == sorted[j - 1]);
                if j - 1 > at {
                    assert(!text_lt(sorted[at].modified_at, sorted[j - 1].modified_at));
                }
                if text_lt(line.modified_at, sorted[j - 1].modified_at) {
                    crate::text::lemma_text_lt_transitive(
                        sorted[at].modified_at,
                        line.modified_at,
                        sorted[j - 1].modified_at,
                    );
                    crate::text::lemma_text_lt_irreflexive(sorted[at].modified_at);
                }
            } else {
                let si = if i < at { i } else { i - 1 };
                let sj = if j < at { j } else { j - 1 };
                assert(out[i] == sorted[si] && out[j] == sorted[sj]);
            }
        }
    }
}

/// What a line tells of its file besides the time: the name and the size.
pub open spec fn name_and_size(line: BackupFileInfoView) -> (Seq<char>, u64) {
    (line.filename, line.file_size)
}

/// The names and sizes that a listing shows, each as often as it is shown.
pub open spec fn shown(lines: Seq<BackupFileInfoView>) -> Multiset<(Seq<char>, u64)> {
    lines.map_values(|line: BackupFileInfoView| name_and_size(line)).to_multiset()
}

/// Ordering changes nothing in what a listing shows.
pub proof fn lemma_shown_after_ordering(lines: Seq<BackupFileInfoView>)
    ensures
        shown(newest_first(lines)) == shown(lines),
    decreases lines.len(),
{
    broadcast use vstd::seq_lib::group_to_multiset_ensures;

    let pick = |line: BackupFileInfoView| name_and_size(line);
    if lines.len() > 0 {
        let init = lines.drop_last();
        let line = lines.last();
        let sorted = newest_first(init);
        let at = slot_for(sorted, line);
        lemma_shown_after_ordering(init);
        lemma_slot_for(sorted, line);
        assert(lines =~= init.push(line));
        assert(lines.map_values(pick) =~= init.map_values(pick).push(pick(line)));
        assert(sorted.insert(at, line).map_values(pick) =~= sorted.map_values(pick).insert(
            at,
            pick(line),
        ));
    }
}

/// What the clock says changes nothing in the names and sizes that are
/// collected.
pub proof fn lemma_shown_whatever_the_clock(
    entries: Seq<DirEntryView>,
    first: Seq<Option<Seq<char>>>,
    second: Seq<Option<Seq<char>>>,
)
    ensures
        collected(entries, first).map_values(|line: BackupFileInfoView| name_and_size(line))
            == collected(entries, second).map_values(
            |line: BackupFileInfoView| name_and_size(line),
        ),
        shown(collected(entries, first)) == shown(collected(entries, second)),
    decreases entries.len(),
{
    let pick = |line: BackupFileInfoView| name_and_size(line);
    if entries.len() > 0 {
        let init = entries.drop_last();
        let entry = entries.last();
        lemma_shown_whatever_the_clock(init, first, second);
        if is_listed(entry) {
            let a = info_of(entry, reading_at(first, entries.len() - 1));
            let b = info_of(entry, reading_at(second, entries.len() - 1));
            assert(collected(entries, first).map_values(pick) =~= collected(
                init,
                first,
            ).map_values(pick).push(pick(a)));
            assert(collected(entries, second).map_values(pick) =~= collected(
                init,
                second,
            ).map_values(pick).push(pick(b)));
        }
    } else {
        assert(collected(entries, first).map_values(pick) =~= collected(
            entries,
            second,
        ).map_values(pick));
    }
}

/// A listing of a directory with one more listed entry shows what the
/// listing without it shows, and that entry's name and size once more.
pub proof fn lemma_shown_with_one_more(
    entries: Seq<DirEntryView>,
    entry: DirEntryView,
    before: Seq<Option<Seq<char>>>,
    after: Seq<Option<Seq<char>>>,
)
    requires
        is_listed(entry),
    ensures
        shown(listing_of(entries.push(entry), after)) == shown(listing_of(entries, before)).insert(
            (entry.filename, entry.metadata->0.file_size),
        ),
        listing_of(entries.push(entry), after).len() == listing_of(entries, before).len() + 1,
{
    broadcast use vstd::seq_lib::group_to_multiset_ensures;

    let pick = |line: BackupFileInfoView| name_and_size(line);
    let more = entries.push(entry);
    let line = info_of(entry, reading_at(after, more.len() - 1));
    assert(more.drop_last() =~= entries);
    assert(collected(more, after) == collected(entries, after).push(line));
    assert(collected(more, after).map_values(pick) =~= collected(entries, after).map_values(
        pick,
    ).push(pick(line)));
    lemma_shown_whatever_the_clock(entries, before, after);
    lemma_shown_after_ordering(collected(more, after));
    lemma_shown_after_ordering(collected(entries, before));
    lemma_newest_first(collected(more, after));
    lemma_newest_first(collected(entries, before));
    assert(collected(entries, after).len() == collected(entries, before).len()) by {
        assert(collected(entries, after).map_values(pick).len() == collected(
            entries,
            before,
        ).map_values(pick).len());
    }
}

/// Two lines come out with the newer one first; lines of the same time
/// stay as they are.
pub proof fn lemma_newest_first_of_two(a: BackupFileInfoView, b: BackupFileInfoView)
    ensures
        newest_first(seq![a, b]) == if text_lt(a.modified_at, b.modified_at) {
            seq![b, a]
        } else {
            seq![a, b]
        },
{
    let both = seq![a, b];
    let one = seq![a];
    assert(both.drop_last() =~= one);
    assert(one.drop_last() =~= Seq::<BackupFileInfoView>::empty());
    assert(newest_first(one.drop_last()) =~= Seq::<BackupFileInfoView>::empty());
    assert(newest_first(one) =~= one);
    assert(one.drop_first().len() == 0);
    assert(slot_for(one.drop_first(), b) == 0);
    assert(one[0] == a);
    if text_lt(a.modified_at, b.modified_at) {
        assert(slot_for(one, b) == 0);
        assert(one.insert(0, b) =~= seq![b, a]);
    } else {
        assert(slot_for(one, b) == 1);
        assert(one.insert(1, b) =~= seq![a, b]);
    }
}

/// Three backups of different times are listed newest first, in whatever
/// order the directory gave them.
pub proof fn law_newest_first_of_three(
    oldest: BackupFileInfoView,
    middle: BackupFileInfoView,
    newest: BackupFileInfoView,
)
    requires
        text_lt(oldest.modified_at, middle.modified_at),
        text_lt(middle.modified_at, newest.modified_at),
    ensures
        newest_first(seq![oldest, middle, newest]) == seq![newest, middle, oldest],
        newest_first(seq![oldest, newest, middle]) == seq![newest, middle, oldest],
        newest_first(seq![middle, oldest, newest]) == seq![newest, middle, oldest],
        newest_first(seq![middle, newest, oldest]) == seq![newest, middle, oldest],
        newest_first(seq![newest, oldest, middle]) == seq![newest, middle, oldest],
        newest_first(seq![newest, middle, oldest]) == seq![newest, middle, oldest],
{
    let (a, b, c) = (oldest, middle, newest);
    crate::text::lemma_text_lt_transitive(a.modified_at, b.modified_at, c.modified_at);
    crate::text::lemma_text_lt_asymmetric(a.modified_at, b.modified_at);
    crate::text::lemma_text_lt_asymmetric(b.modified_at, c.modified_at);
    crate::text::lemma_text_lt_asymmetric(a.modified_at, c.modified_at);
    let want = seq![c, b, a];
    reveal_with_fuel(slot_for, 4);
    assert(seq![a, b, c].drop_last() =~= seq![a, b]);
    assert(seq![a, c, b].drop_last() =~= seq![a, c]);
    assert(seq![b, a, c].drop_last() =~= seq![b, a]);
    assert(seq![b, c, a].drop_last() =~= seq![b, c]);
    assert(seq![c, a, b].drop_last() =~= seq![c, a]);
    assert(seq![c, b, a].drop_last() =~= seq![c, b]);
    lemma_newest_first_of_two(a, b);
    lemma_newest_first_of_two(a, c);
    lemma_newest_first_of_two(b, a);
    lemma_newest_first_of_two(b, c);
    lemma_newest_first_of_two(c, a);
    lemma_newest_first_of_two(c, b);
    assert(seq![b, a].drop_first() =~= seq![a]);
    assert(seq![c, a].drop_first() =~= seq![a]);
    assert(seq![c, b].drop_first() =~= seq![b]);
    assert(seq![a].drop_first() =~= Seq::<BackupFileInfoView>::empty());
    assert(seq![b].drop_first() =~= Seq::<BackupFileInfoView>::empty());
    assert(seq![b, a].insert(0, c) =~= want);
    assert(seq![c, a].insert(1, b) =~= want);
    assert(seq![c, b].insert(2, a) =~= want);
}

/// A copy of a line.
fn copy_line(line: &BackupFileInfo) -> (r: BackupFileInfo)
    ensures
        r@ == line@,
{
    BackupFileInfo {
        filename: line.filename.clone(),
        path: line.path.clone(),
        file_size: line.file_size,
        modified_at: line.modified_at.clone(),
    }
}

/// Orders the lines of a listing by time of modification, newest first;
/// lines of the same time keep their order.
pub fn sort_backups(lines: Vec<BackupFileInfo>) -> (r: Vec<BackupFileInfo>)
    ensures
        r.deep_view() == newest_first(lines.deep_view()),
        r.len() == lines.len(),
        r.deep_view().to_multiset() == lines.deep_view().to_multiset(),
        is_newest_first(r.deep_view()),
{
    let mut out: Vec<BackupFileInfo> = Vec::new();
    let mut n: usize = 0;
    assert(lines.deep_view().take(0) =~= Seq::empty());
    assert(out.deep_view() =~= Seq::empty());
    while n < lines.len()
        invariant
            n <= lines.len(),
            out.deep_view() == newest_first(lines.deep_view().take(n as int)),
            out.len() == n,
        decreases lines.len() - n,
    {
        let line = copy_line(&lines[n]);
        let ghost sorted = out.deep_view();
        let mut at: usize = 0;
        assert(sorted.skip(0) =~= sorted);
        while at < out.len() && !precedes(out[at].modified_at.as_str(), line.modified_at.as_str())
            invariant
                at <= out.len(),
                sorted == out.deep_view(),
                slot_for(sorted, line@) == at + slot_for(sorted.skip(at as int), line@),
            decreases out.len() - at,
        {
            assert(sorted.skip(at as int)[0] == out[at as int]@);
            assert(sorted.skip(at as int).drop_first() =~= sorted.skip(at + 1));
            at = at + 1;
        }
        proof {
            if at < out.len() {
                assert(sorted.skip(at as int)[0] == out[at as int]@);
            }
            let upto = lines.deep_view().take(n + 1);
            assert(upto.drop_last() =~= lines.deep_view().take(n as int));
            assert(upto.last() == line@);
        }
        out.insert(at, line);
        assert(out.deep_view() =~= sorted.insert(at as int, line@));
        n = n + 1;
    }
    proof {
        assert(lines.deep_view().take(n as int) =~= lines.deep_view());
        lemma_newest_first(lines.deep_view());
    }
    out
}

/// Asks the clock for the time of modification of each listed entry that
/// has one. The answers stand at the entries' positions; where the clock was
/// not asked or could not answer stands `None`.
pub fn read_modified(entries: &Vec<DirEntry>) -> (readings: Vec<Option<String>>)
    ensures
        may_be_read_of(readings.deep_view(), entries.deep_view()),
{
    let mut readings: Vec<Option<String>> = Vec::new();
    let mut i: usize = 0;
    while i < entries.len()
        invariant
            i <= entries.len(),
            readings.len() == i,
            forall|k: int| 0 <= k < i && !has_time(#[trigger] entries[k]@) ==> readings[k] is None,
            forall|k: int|
                0 <= k < i && has_calendar_time(#[trigger] entries[k]@) ==> readings[k] is Some,
        decreases entries.len() - i,
    {
        let entry = &entries[i];
        let mut reading: Option<String> = None;
        if has_db_extension(entry.filename.as_str()) {
            if let Some(metadata) = entry.metadata {
                if let Some(when) = metadata.modified {
                    reading = local_rfc3339(when.secs, when.nanos);
                }
            }
        }
        readings.push(reading);
        i = i + 1;
    }
    proof {
        let said = readings.deep_view();
        let asked = entries.deep_view();
        assert forall|k: int| 0 <= k < asked.len() && !has_time(#[trigger] asked[k]) implies said[k]
            is None by {
            assert(asked[k] == entries[k]@);
        }
        assert forall|k: int|
            0 <= k < asked.len() && has_calendar_time(#[trigger] asked[k]) implies said[k]
            is Some by {
            assert(asked[k] == entries[k]@);
        }
    }
    readings
}

/// Makes the listing of `entries`, given what the clock said of each
/// entry's time of modification: the entries that are named like a backup
/// file and whose metadata could be read, newest first.
pub fn arrange_backups(entries: &Vec<DirEntry>, readings: &Vec<Option<String>>) -> (r: Vec<
    BackupFileInfo,
>)
    ensures
        r.deep_view() == listing_of(entries.deep_view(), readings.deep_view()),
        is_newest_first(r.deep_view()),
{
    let mut lines: Vec<BackupFileInfo> = Vec::new();
    let mut i: usize = 0;
    assert(entries.deep_view().take(0) =~= Seq::empty());
    assert(lines.deep_view() =~= Seq::empty());
    while i < entries.len()
        invariant
            i <= entries.len(),
            lines.deep_view() == collected(entries.deep_view().take(i as int), readings.deep_view()),
        decreases entries.len() - i,
    {
        let entry = &entries[i];
        let ghost before = lines.deep_view();
        proof {
            let upto = entries.deep_view().take(i + 1);
            assert(upto.drop_last() =~= entries.deep_view().take(i as int));
            assert(upto.last() == entry@);
        }
        if has_db_extension(entry.filename.as_str()) {
            if let Some(metadata) = entry.metadata {
                let mut modified_at = String::from_str("Unknown");
                if metadata.modified.is_some() && i < readings.len() {
                    if let Some(text) = &readings[i] {
                        modified_at = text.clone();
                    }
                }
                assert(modified_at@ == info_of(
                    entry@,
                    reading_at(readings.deep_view(), i as int),
                ).modified_at);
                lines.push(
                    BackupFileInfo {
                        filename: entry.filename.clone(),
                        path: entry.path.clone(),
                        file_size: metadata.file_size,
                        modified_at,
                    },
                );
                assert(lines.deep_view() =~= before.push(
                    info_of(entry@, reading_at(readings.deep_view(), i as int)),
                ));
            }
        }
        i = i + 1;
    }
    assert(entries.deep_view().take(i as int) =~= entries.deep_view());
    sort_backups(lines)
}

} // verus!
