//! The decisions of the database layer: what to write when a visual novel or
//! a hook is put, given what the database already holds.
//!
//! Reading and writing the database is the caller's work.
use crate::models::{Hook, HookView, HookViewRecord, Vn, VnRecord};
use vstd::prelude::*;

verus! {

/// The write that puts a hook.
#[derive(Clone, Copy, Debug, PartialEq, Eq, Structural)]
pub enum HookWrite {
    /// Set the code of the row with this id.
    Update { hook_id: i64 },
    /// Add a row.
    Insert,
}

/// How a hook is put: the write to make, and the hook as it stands once the
/// write is made.
#[derive(Clone, Debug, PartialEq, Eq)]
pub struct HookPlan {
    pub write: HookWrite,
    pub view: HookView,
}

/// How a visual novel is put.
#[derive(Clone, Debug, PartialEq, Eq)]
pub enum VnPlan {
    /// The database holds it already: nothing is written and the stored row
    /// is the result, whatever title was offered.
    Keep { vn: Vn },
    /// It is missing: this row is added and is the result.
    Insert { vn: Vn },
}

/// The pattern that finds every title holding `title`.
pub open spec fn search_pattern_text(title: Seq<char>) -> Seq<char> {
    "%"@ + title + "%"@
}

/// Decides how a hook for `version` of `vn` is put, given the hook that the
/// database holds for that version, if any. A stored hook keeps its row, its
/// owner and its version as stored and gets the new code; without one, a new
/// hook of `vn` is added under the version and code given.
pub fn plan_put_hook(vn: &Vn, existing: Option<Hook>, version: String, code: String) -> (plan:
    HookPlan)
    ensures
        match existing {
            Some(hook) => plan.write == (HookWrite::Update { hook_id: hook.id }) && plan.view@
                == (HookViewRecord {
                vn_id: hook.vn_id as int,
                version: hook.version@,
                code: code@,
            }),
            None => plan.write == HookWrite::Insert && plan.view@ == (HookViewRecord {
                vn_id: vn.id as int,
                version: version@,
                code: code@,
            }),
        },
{
    match existing {
        Some(hook) => HookPlan {
            write: HookWrite::Update { hook_id: hook.id },
            view: HookView { vn_id: hook.vn_id, version: hook.version, code },
        },
        None => HookPlan {
            write: HookWrite::Insert,
            view: HookView { vn_id: vn.id, version, code },
        },
    }
}

/// Decides how the visual novel `id` is put, given the row that the database
/// holds under that id, if any.
pub fn plan_put_vn(existing: Option<Vn>, id: i64, title: String) -> (plan: VnPlan)
    ensures
        match existing {
            Some(stored) => plan matches VnPlan::Keep { vn } && vn@ == stored@,
            None => plan matches VnPlan::Insert { vn } && vn@ == (VnRecord {
                id: id as int,
                title: title@,
            }),
        },
{
    match existing {
        Some(stored) => VnPlan::Keep { vn: stored },
        None => VnPlan::Insert { vn: Vn { id, title } },
    }
}

/// Writes the pattern that finds every title holding `title`.
pub fn search_pattern(title: &str) -> (pattern: String)
    ensures
        pattern@ == search_pattern_text(title@),
{
    let mut pattern = String::from_str("%");
    pattern.append(title);
    pattern.append("%");
    pattern
}

} // verus!
