//! The scratch reclaimer: a recursive wipe of a directory that passes over
//! what it cannot remove, and the account of what it deleted.
//!
//! A walk goes depth first and tries every removal; a removal that fails is
//! passed over and the walk goes on. Each entry gives one `WalkEvent`, a
//! directory after everything below it, and `ReclaimStats` adds them up. The
//! caller that walks a real directory reports the events as they happen;
//! `walk` does the same walk through a directory given as a value.

use vstd::prelude::*;
use vstd::string::*;

verus! {

/// What one walk has deleted.
#[derive(Clone, Copy, Debug, PartialEq, Eq, Structural)]
pub struct ReclaimStats {
    /// The files and directories that were removed.
    pub deleted_count: u64,
    /// The sizes of the files that were met, removed or not.
    pub total_bytes: u64,
}

/// What happened to one entry of the tree.
#[derive(Clone, Copy, Debug, PartialEq, Eq, Structural)]
pub enum WalkEvent {
    /// A directory, after the walk below it: whether removing it succeeded.
    Directory { removed: bool },
    /// A file: its size where that could be read, and whether removing it
    /// succeeded.
    File { size: Option<u64>, removed: bool },
}

/// What an event adds to the number of deleted entries.
pub open spec fn deleted_by(event: WalkEvent) -> nat {
    match event {
        WalkEvent::Directory { removed } => if removed {
            1
        } else {
            0
        },
        WalkEvent::File { size, removed } => if removed {
            1
        } else {
            0
        },
    }
}

/// What an event adds to the bytes: the size of a file where it is known,
/// whether or not the file could then be removed.
pub open spec fn bytes_of(event: WalkEvent) -> nat {
    match event {
        WalkEvent::Directory { removed } => 0,
        WalkEvent::File { size, removed } => match size {
            Some(n) => n as nat,
            None => 0,
        },
    }
}

/// The entries that a walk with these events has deleted.
pub open spec fn deleted_total(events: Seq<WalkEvent>) -> nat
    decreases events.len(),
{
    if events.len() == 0 {
        0
    } else {
        deleted_total(events.drop_last()) + deleted_by(events.last())
    }
}

/// The bytes that a walk with these events has met.
pub open spec fn bytes_total(events: Seq<WalkEvent>) -> nat
    decreases events.len(),
{
    if events.len() == 0 {
        0
    } else {
        bytes_total(events.drop_last()) + bytes_of(events.last())
    }
}

impl ReclaimStats {
    /// The stats of a walk that met nothing: also those of a root that does
    /// not exist.
    pub fn zero() -> (r: ReclaimStats)
        ensures
            r.deleted_count == 0,
            r.total_bytes == 0,
    {
        ReclaimStats { deleted_count: 0, total_bytes: 0 }
    }

    /// Adds one entry to the stats.
    pub fn record(&mut self, event: WalkEvent)
        requires
            old(self).deleted_count + deleted_by(event) <= u64::MAX,
            old(self).total_bytes + bytes_of(event) <= u64::MAX,
        ensures
            final(self).deleted_count == old(self).deleted_count + deleted_by(event),
            final(self).total_bytes == old(self).total_bytes + bytes_of(event),
    {
        match event {
            WalkEvent::Directory { removed } => {
                if removed {
                    self.deleted_count = self.deleted_count + 1;
                }
            },
            WalkEvent::File { size, removed } => {
                match size {
                    Some(n) => {
                        self.total_bytes = self.total_bytes + n;
                    },
                    None => {},
                }
                if removed {
                    self.deleted_count = self.deleted_count + 1;
                }
            },
        }
    }

    /// Adds the stats of a walk below to those of the walk above it.
    pub fn merge(&mut self, below: ReclaimStats)
        requires
            old(self).deleted_count + below.deleted_count <= u64::MAX,
            old(self).total_bytes + below.total_bytes <= u64::MAX,
        ensures
            final(self).deleted_count == old(self).deleted_count + below.deleted_count,
            final(self).total_bytes == old(self).total_bytes + below.total_bytes,
    {
        self.deleted_count = self.deleted_count + below.deleted_count;
        self.total_bytes = self.total_bytes + below.total_bytes;
    }
}

/// The stats of a whole walk, from its events in the order in which they
/// came. No event ends the walk: every entry is counted for what happened to
/// it, whatever happened to the others.
pub fn reclaim_stats(events: &Vec<WalkEvent>) -> (r: ReclaimStats)
    requires
        bytes_total(events@) <= u64::MAX,
    ensures
        r.deleted_count == deleted_total(events@),
        r.total_bytes == bytes_total(events@),
{
    let mut stats = ReclaimStats::zero();
    let mut i: usize = 0;
    while i < events.len()
        invariant
            i <= events.len(),
            stats.deleted_count == deleted_total(events@.take(i as int)),
            stats.total_bytes == bytes_total(events@.take(i as int)),
            stats.deleted_count <= i,
            bytes_total(events@) <= u64::MAX,
        decreases events.len() - i,
    {
        proof {
            assert(events@.take(i + 1).drop_last() =~= events@.take(i as int));
            totals_grow(events@, i + 1);
        }
        stats.record(events[i]);
        i += 1;
    }
    assert(events@.take(i as int) =~= events@);
    stats
}

/// The totals of a part of a walk never exceed those of the whole walk.
pub proof fn totals_grow(events: Seq<WalkEvent>, n: int)
    requires
        0 <= n <= events.len(),
    ensures
        bytes_total(events.take(n)) <= bytes_total(events),
        deleted_total(events.take(n)) <= deleted_total(events),
        deleted_total(events) <= events.len(),
    decreases events.len(),
{
    if events.len() == 0 {
    } else if n == events.len() {
        assert(events.take(n) =~= events);
        totals_grow(events.drop_last(), n - 1);
    } else {
        assert(events.drop_last().take(n) =~= events.take(n));
        totals_grow(events.drop_last(), n);
    }
}

/// A walk that meets no entry deletes nothing, however often it is made.
pub proof fn empty_walk_is_zero()
    ensures
        deleted_total(Seq::<WalkEvent>::empty()) == 0,
        bytes_total(Seq::<WalkEvent>::empty()) == 0,
{
}

/// Reclaiming an empty directory, or a root that does not exist, gives the
/// zero stats; and since it changes nothing, so does reclaiming it again.
pub proof fn empty_root_gives_zero(root: Option<Vec<Entry>>)
    requires
        root matches Some(entries) ==> entries@.len() == 0,
    ensures
        deleted_total(events_from(root)) == 0,
        bytes_total(events_from(root)) == 0,
{
}

/// The stats of two walks made one after the other are the sums of theirs.
pub proof fn walks_add_up(first: Seq<WalkEvent>, second: Seq<WalkEvent>)
    ensures
        deleted_total(first + second) == deleted_total(first) + deleted_total(second),
        bytes_total(first + second) == bytes_total(first) + bytes_total(second),
    decreases second.len(),
{
    if second.len() == 0 {
    } else {
        assert((first + second).drop_last() =~= first + second.drop_last());
        walks_add_up(first, second.drop_last());
    }
}

/// An entry of a directory as a walk finds it, with what the file system
/// will answer when the walk tries to remove it.
#[derive(Debug, PartialEq, Eq)]
pub enum Entry {
    /// A file: its size where that can be read, and whether removing it will
    /// succeed.
    File { size: Option<u64>, removable: bool },
    /// A directory: what it holds, and whether removing it will succeed once
    /// it is empty. A directory that still holds something is never removed.
    Directory { entries: Vec<Entry>, removable: bool },
}

/// Whether the walk removes every one of `entries`.
pub open spec fn all_removed(entries: Seq<Entry>) -> bool
    decreases entries,
{
    forall|i: int| 0 <= i < entries.len() ==> is_removed(#[trigger] entries[i])
}

/// Whether the walk removes `entry`: a file where the file system lets it, a
/// directory where the walk has emptied it and the file system lets it.
pub open spec fn is_removed(entry: Entry) -> bool
    decreases entry,
{
    match entry {
        Entry::File { size, removable } => removable,
        Entry::Directory { entries, removable } => removable && all_removed(entries@),
    }
}

/// The events of the walk through `entry`: for a directory, those of
/// everything in it, and then its own.
pub open spec fn events_of(entry: Entry) -> Seq<WalkEvent>
    decreases entry,
{
    match entry {
        Entry::File { size, removable } => seq![WalkEvent::File { size, removed: removable }],
        Entry::Directory { entries, removable } => events_among(entries@, entries@.len()).push(
            WalkEvent::Directory { removed: removable && all_removed(entries@) },
        ),
    }
}

/// The events of the walk through the first `n` of `entries`, in their order.
pub open spec fn events_among(entries: Seq<Entry>, n: nat) -> Seq<WalkEvent>
    decreases entries, n,
{
    if n == 0 || n > entries.len() {
        Seq::empty()
    } else {
        events_among(entries, (n - 1) as nat) + events_of(entries[n - 1])
    }
}

/// The events of a whole walk below a root that holds `entries`.
pub open spec fn events_below(entries: Seq<Entry>) -> Seq<WalkEvent> {
    events_among(entries, entries.len())
}

/// The number of files and directories in `entry`, itself included.
pub open spec fn size_of(entry: Entry) -> nat
    decreases entry,
{
    match entry {
        Entry::File { size, removable } => 1,
        Entry::Directory { entries, removable } => size_among(entries@, entries@.len()) + 1,
    }
}

/// The number of files and directories in the first `n` of `entries`.
pub open spec fn size_among(entries: Seq<Entry>, n: nat) -> nat
    decreases entries, n,
{
    if n == 0 || n > entries.len() {
        0
    } else {
        size_among(entries, (n - 1) as nat) + size_of(entries[n - 1])
    }
}

/// Walks through one entry and adds its events to `events`: a directory is
/// walked through before the attempt to remove it. Tells whether the entry
/// was removed.
pub fn walk_entry(entry: &Entry, events: &mut Vec<WalkEvent>) -> (removed: bool)
    ensures
        final(events)@ == old(events)@ + events_of(*entry),
        removed == is_removed(*entry),
    decreases entry,
{
    match entry {
        Entry::File { size, removable } => {
            events.push(WalkEvent::File { size: *size, removed: *removable });
            *removable
        },
        Entry::Directory { entries, removable } => {
            let emptied = walk_entries(entries, events);
            let removed = *removable && emptied;
            events.push(WalkEvent::Directory { removed });
            removed
        },
    }
}

/// Walks through the entries of a directory, one after the other, and adds
/// their events to `events`. No entry ends the walk: those after one that
/// could not be removed are walked through all the same. Tells whether every
/// entry was removed.
pub fn walk_entries(entries: &Vec<Entry>, events: &mut Vec<WalkEvent>) -> (emptied: bool)
    ensures
        final(events)@ == old(events)@ + events_below(entries@),
        emptied == all_removed(entries@),
    decreases entries,
{
    let mut emptied = true;
    let mut i: usize = 0;
    while i < entries.len()
        invariant
            i <= entries.len(),
            events@ == old(events)@ + events_among(entries@, i as nat),
            emptied == (forall|j: int| 0 <= j < i ==> is_removed(#[trigger] entries@[j])),
        decreases entries.len() - i,
    {
        let removed = walk_entry(&entries[i], events);
        if !removed {
            emptied = false;
        }
        i += 1;
    }
    emptied
}

/// The events of a whole walk. A root that does not exist gives none, and
/// the root itself is never removed.
pub fn walk(root: &Option<Vec<Entry>>) -> (events: Vec<WalkEvent>)
    ensures
        events@ == events_from(*root),
{
    let mut events: Vec<WalkEvent> = Vec::new();
    match root {
        Some(entries) => {
            walk_entries(entries, &mut events);
        },
        None => {},
    }
    events
}

/// The events of a whole walk from a root that may not exist.
pub open spec fn events_from(root: Option<Vec<Entry>>) -> Seq<WalkEvent> {
    match root {
        Some(entries) => events_below(entries@),
        None => Seq::empty(),
    }
}

/// Reclaims a scratch directory: walks through everything below the root,
/// removes what can be removed, and tells what was deleted. A root that does
/// not exist is no error and gives the zero stats.
pub fn reclaim(root: &Option<Vec<Entry>>) -> (r: ReclaimStats)
    requires
        bytes_total(events_from(*root)) <= u64::MAX,
    ensures
        r.deleted_count == deleted_total(events_from(*root)),
        r.total_bytes == bytes_total(events_from(*root)),
{
    let events = walk(root);
    reclaim_stats(&events)
}

/// A walk reports every file and directory once, whatever could be removed:
/// a removal that fails ends nothing.
pub proof fn every_entry_is_reported(entries: Seq<Entry>, n: nat)
    requires
        n <= entries.len(),
    ensures
        events_among(entries, n).len() == size_among(entries, n),
    decreases entries, n,
{
    if n > 0 {
        every_entry_is_reported(entries, (n - 1) as nat);
        entry_is_reported(entries[n - 1]);
    }
}

/// The walk through one entry reports it and everything in it once.
pub proof fn entry_is_reported(entry: Entry)
    ensures
        events_of(entry).len() == size_of(entry),
    decreases entry,
{
    match entry {
        Entry::File { size, removable } => {},
        Entry::Directory { entries, removable } => {
            every_entry_is_reported(entries@, entries@.len());
        },
    }
}

/// Where the walk removes every entry, it has deleted as many as it met.
pub proof fn full_wipe_deletes_all(entries: Seq<Entry>, n: nat)
    requires
        n <= entries.len(),
        all_removed(entries),
    ensures
        deleted_total(events_among(entries, n)) == size_among(entries, n),
    decreases entries, n,
{
    if n > 0 {
        full_wipe_deletes_all(entries, (n - 1) as nat);
        let last = entries[n - 1];
        full_wipe_of_entry(last);
        walks_add_up(events_among(entries, (n - 1) as nat), events_of(last));
    }
}

/// Where the walk removes an entry, it has deleted it and everything in it.
pub proof fn full_wipe_of_entry(entry: Entry)
    requires
        is_removed(entry),
    ensures
        deleted_total(events_of(entry)) == size_of(entry),
    decreases entry,
{
    match entry {
        Entry::File { size, removable } => {
            let events = events_of(entry);
            assert(deleted_total(events.drop_last()) == 0);
        },
        Entry::Directory { entries, removable } => {
            full_wipe_deletes_all(entries@, entries@.len());
            let inner = events_among(entries@, entries@.len());
            let events = events_of(entry);
            assert(events.drop_last() =~= inner);
        },
    }
}

/// Why a walk ended before its time.
#[derive(Debug, PartialEq, Eq)]
pub enum ReclaimError {
    /// A directory could not be listed; the text says why.
    ReadDirectory(String),
    /// An entry of a directory could not be read; the text says why.
    ReadEntry(String),
}

/// The text shown for a `ReclaimError`.
pub open spec fn reclaim_error_text(e: ReclaimError) -> Seq<char> {
    match e {
        ReclaimError::ReadDirectory(why) => "Unable to read directory: "@ + why@,
        ReclaimError::ReadEntry(why) => "Failed to read directory entry: "@ + why@,
    }
}

impl ReclaimError {
    /// Describes the error for display.
    pub fn message(&self) -> (r: String)
        ensures
            r@ == reclaim_error_text(*self),
    {
        match self {
            ReclaimError::ReadDirectory(why) => {
                let mut s = String::from_str("Unable to read directory: ");
                s.append(why.as_str());
                s
            },
            ReclaimError::ReadEntry(why) => {
                let mut s = String::from_str("Failed to read directory entry: ");
                s.append(why.as_str());
                s
            },
        }
    }
}

} // verus!
