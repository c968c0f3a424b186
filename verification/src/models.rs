//! The two record types of the application's database, as plain values.
use vstd::prelude::*;

verus! {

/// A visual novel: its id and its title.
#[derive(Clone, Debug, PartialEq, Eq)]
pub struct Vn {
    pub id: i64,
    pub title: String,
}

/// A hook code stored for one version of a visual novel.
#[derive(Clone, Debug, PartialEq, Eq)]
pub struct Hook {
    pub id: i64,
    pub vn_id: i64,
    pub version: String,
    pub code: String,
}

/// A hook as it is written to the database and shown to a user: a [`Hook`]
/// without its row id.
#[derive(Clone, Debug, PartialEq, Eq)]
pub struct HookView {
    pub vn_id: i64,
    pub version: String,
    pub code: String,
}

/// The mathematical content of a [`Vn`].
pub struct VnRecord {
    pub id: int,
    pub title: Seq<char>,
}

/// The mathematical content of a [`Hook`].
pub struct HookRecord {
    pub id: int,
    pub vn_id: int,
    pub version: Seq<char>,
    pub code: Seq<char>,
}

/// The mathematical content of a [`HookView`].
pub struct HookViewRecord {
    pub vn_id: int,
    pub version: Seq<char>,
    pub code: Seq<char>,
}

impl View for Vn {
    type V = VnRecord;

    open spec fn view(&self) -> VnRecord {
        VnRecord { id: self.id as int, title: self.title@ }
    }
}

impl View for Hook {
    type V = HookRecord;

    open spec fn view(&self) -> HookRecord {
        HookRecord {
            id: self.id as int,
            vn_id: self.vn_id as int,
            version: self.version@,
            code: self.code@,
        }
    }
}

impl View for HookView {
    type V = HookViewRecord;

    open spec fn view(&self) -> HookViewRecord {
        HookViewRecord { vn_id: self.vn_id as int, version: self.version@, code: self.code@ }
    }
}

} // verus!
