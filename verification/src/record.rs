//! The per-record data the bridge translates: message text, severity level,
//! tag, source location, and the key-value pairs in the order the producer
//! presents them.

use crate::kv::KvPair;
use crate::level::SlogLevel;
use vstd::prelude::*;

verus! {

/// One producer log record, reduced to the plain values the translation
/// reads. The pairs stand in the producer's own presentation order
/// (typically most recently added first).
pub struct Record {
    pub msg: String,
    pub level: SlogLevel,
    pub tag: String,
    pub module: String,
    pub file: String,
    pub line: u32,
    pub column: u32,
    pub pairs: Vec<KvPair>,
}

/// The reported origin of a record: its tag when non-empty, else its
/// module path.
pub open spec fn target_spec(r: Record) -> Seq<char> {
    if r.tag@.len() == 0 {
        r.module@
    } else {
        r.tag@
    }
}

/// Resolves the target string of a record without allocating: a borrowed
/// view of the tag when the tag is non-empty, else of the module path.
pub fn get_target(record: &Record) -> (t: &str)
    ensures
        t@ == target_spec(*record),
{
    let tag = record.tag.as_str();
    if tag.is_empty() {
        record.module.as_str()
    } else {
        tag
    }
}

/// An empty tag yields the module path; a non-empty tag wins over any
/// module path.
pub proof fn lemma_target_choice(r: Record)
    ensures
        r.tag@.len() == 0 ==> target_spec(r) == r.module@,
        r.tag@.len() > 0 ==> target_spec(r) == r.tag@,
{
}

} // verus!
