//! Detection of a launcher, or one of its workers, that is already active.
//!
//! The test is a scan of the host's process table for a name that holds the
//! launcher's identifying fragment, the caller's own entry left out. It is a
//! fuzzy test and no lock: an unrelated process whose name holds the fragment
//! counts as a duplicate too.
//!
//! Reading the table is the caller's work: the scan takes the rows and the
//! caller's own id as plain values. A table that could not be read is an
//! empty table, and an empty table shows no duplicate.
use crate::text::{contains_fragment, decimal, render_decimal, str_contains};
use vstd::prelude::*;

verus! {

/// One row of the process table: what the scan reads of a process.
#[derive(Clone, Debug, PartialEq, Eq)]
pub struct ProcessEntry {
    pub pid: u32,
    pub name: String,
}

/// The fragment by which the launcher and its workers are recognised.
pub open spec fn launcher_identity() -> Seq<char> {
    "roseline"@
}

/// A process called `name` with id `pid` counts as another instance.
pub open spec fn is_conflict(name: Seq<char>, pid: u32, identity: Seq<char>, own_pid: u32) -> bool {
    contains_fragment(name, identity) && pid != own_pid
}

/// Row `at` of the table counts as another instance.
pub open spec fn conflict_at(table: Seq<ProcessEntry>, at: int, identity: Seq<char>, own_pid: u32)
    -> bool {
    0 <= at < table.len() && is_conflict(table[at].name@, table[at].pid, identity, own_pid)
}

/// Some row of the table counts as another instance.
pub open spec fn has_conflict(table: Seq<ProcessEntry>, identity: Seq<char>, own_pid: u32) -> bool {
    exists|at: int| conflict_at(table, at, identity, own_pid)
}

/// The notice that names a conflicting process.
pub open spec fn duplicate_notice_text(name: Seq<char>, pid: u32) -> Seq<char> {
    "Found Roseline's process '"@ + name + "' with pid="@ + decimal(pid as nat) + ". Exiting..."@
}

/// The scan for another instance, for one caller.
pub struct InstanceGuard {
    identity: String,
    own_pid: u32,
}

impl InstanceGuard {
    /// The fragment that is looked for in process names.
    pub closed spec fn identity(&self) -> Seq<char> {
        self.identity@
    }

    /// The id of the caller's own process, which never counts.
    pub closed spec fn own_pid(&self) -> u32 {
        self.own_pid
    }

    /// A guard that looks for `identity` on behalf of process `own_pid`.
    pub fn new(identity: &str, own_pid: u32) -> (guard: Self)
        ensures
            guard.identity() == identity@,
            guard.own_pid() == own_pid,
    {
        InstanceGuard { identity: String::from_str(identity), own_pid }
    }

    /// The guard of the launcher itself, run as process `own_pid`.
    pub fn for_launcher(own_pid: u32) -> (guard: Self)
        ensures
            guard.identity() == launcher_identity(),
            guard.own_pid() == own_pid,
    {
        InstanceGuard::new("roseline", own_pid)
    }

    /// Whether one row counts as another instance.
    pub fn conflicts_with(&self, entry: &ProcessEntry) -> (b: bool)
        ensures
            b == is_conflict(entry.name@, entry.pid, self.identity(), self.own_pid()),
    {
        entry.pid != self.own_pid && str_contains(entry.name.as_str(), self.identity.as_str())
    }

    /// The first row of the table that counts as another instance.
    pub fn find_duplicate(&self, table: &Vec<ProcessEntry>) -> (found: Option<usize>)
        ensures
            match found {
                Some(at) => conflict_at(table@, at as int, self.identity(), self.own_pid())
                    && forall|j: int|
                    0 <= j < at ==> !conflict_at(table@, j, self.identity(), self.own_pid()),
                None => !has_conflict(table@, self.identity(), self.own_pid()),
            },
    {
        let mut at: usize = 0;
        while at < table.len()
            invariant
                at <= table.len(),
                forall|j: int|
                    0 <= j < at ==> !conflict_at(table@, j, self.identity(), self.own_pid()),
            decreases table.len() - at,
        {
            if self.conflicts_with(&table[at]) {
                return Some(at);
            }
            at += 1;
        }
        None
    }

    /// Whether the table shows another instance: true exactly when some row
    /// holds the identity in its name under an id that is not the caller's.
    pub fn is_duplicate(&self, table: &Vec<ProcessEntry>) -> (duplicate: bool)
        ensures
            duplicate == has_conflict(table@, self.identity(), self.own_pid()),
    {
        self.find_duplicate(table).is_some()
    }
}

/// Writes the notice that names a conflicting process.
pub fn duplicate_notice(entry: &ProcessEntry) -> (notice: String)
    ensures
        notice@ == duplicate_notice_text(entry.name@, entry.pid),
{
    let mut notice = String::from_str("Found Roseline's process '");
    notice.append(entry.name.as_str());
    notice.append("' with pid=");
    let pid = render_decimal(entry.pid as u64);
    notice.append(pid.as_str());
    notice.append(". Exiting...");
    notice
}

/// What a scan of the process table found.
#[derive(Clone, Debug, PartialEq, Eq)]
pub struct ScanReport {
    /// The id of the process that scanned.
    pub own_pid: u32,
    /// The rows that were read, in the order in which they were read.
    pub table: Vec<ProcessEntry>,
    /// The first row that counts as another instance.
    pub conflict: Option<usize>,
}

impl ScanReport {
    /// The report on a table that process `own_pid` has read: it holds the
    /// id and the table as given, and points at the first row that counts as
    /// another instance of the launcher, or at none if no row does.
    pub fn of(own_pid: u32, table: Vec<ProcessEntry>) -> (report: Self)
        ensures
            report.own_pid == own_pid,
            report.table == table,
            match report.conflict {
                Some(at) => conflict_at(table@, at as int, launcher_identity(), own_pid)
                    && forall|j: int|
                    0 <= j < at ==> !conflict_at(table@, j, launcher_identity(), own_pid),
                None => !has_conflict(table@, launcher_identity(), own_pid),
            },
    {
        let guard = InstanceGuard::for_launcher(own_pid);
        let conflict = guard.find_duplicate(&table);
        ScanReport { own_pid, table, conflict }
    }
}

/// Whether another instance of the launcher is active, given the process
/// table as process `own_pid` has read it: true exactly when some row holds
/// the launcher's identity in its name under an id that is not `own_pid`.
pub fn is_already_running(own_pid: u32, table: &Vec<ProcessEntry>) -> (running: bool)
    ensures
        running == has_conflict(table@, launcher_identity(), own_pid),
{
    InstanceGuard::for_launcher(own_pid).is_duplicate(table)
}

/// A table that holds nothing but the caller's own row shows no duplicate,
/// whatever the row is called.
pub proof fn lemma_own_entry_is_no_duplicate(table: Seq<ProcessEntry>, identity: Seq<char>, own_pid: u32)
    requires
        forall|at: int| 0 <= at < table.len() ==> table[at].pid == own_pid,
    ensures
        !has_conflict(table, identity, own_pid),
{
}

/// A table with a row whose name holds the identity, under an id that is not
/// the caller's, shows a duplicate, whatever else it holds.
pub proof fn lemma_foreign_match_is_duplicate(
    table: Seq<ProcessEntry>,
    at: int,
    identity: Seq<char>,
    own_pid: u32,
)
    requires
        0 <= at < table.len(),
        contains_fragment(table[at].name@, identity),
        table[at].pid != own_pid,
    ensures
        has_conflict(table, identity, own_pid),
{
    assert(conflict_at(table, at, identity, own_pid));
}

} // verus!
