//! The field descriptor registry: one process-lifetime event descriptor per
//! consumer severity level, with the field handles resolved once from the
//! shared field-name table. The descriptors themselves are static data owned
//! by the surrounding application; this module validates them — each slot's
//! descriptor must carry its slot's severity and every shared field name —
//! resolves the handles, and picks the slot a record's level maps to.

use crate::level::SlogLevel;
use crate::level::TraceLevel;
use crate::level::map_level_spec;
use crate::level::trace_rank;
use tracing_core::Metadata;
use tracing_core::field::Field;
use tracing_core::field::FieldSet;
use vstd::prelude::*;
use vstd::slice::slice_index_get;
use vstd::string::StringExecFns;

verus! {

#[verifier::external_type_specification]
#[verifier::external_body]
pub struct ExMetadata<'a>(Metadata<'a>);

#[verifier::external_type_specification]
#[verifier::external_body]
pub struct ExField(Field);

#[verifier::external_type_specification]
#[verifier::external_body]
pub struct ExFieldSet(FieldSet);

/// The names a descriptor's field set holds, as character sequences, in
/// the set's own order.
pub uninterp spec fn fieldset_names(fs: FieldSet) -> Seq<Seq<char>>;

/// The name a metadata value reports: what tracing_core::Metadata::name
/// returns, a function of the metadata alone.
pub uninterp spec fn meta_name(m: Metadata) -> Seq<char>;

/// The target a metadata value reports: what tracing_core::Metadata::target
/// returns, a function of the metadata alone.
pub uninterp spec fn meta_target(m: Metadata) -> Seq<char>;

/// The severity a metadata value reports: what tracing_core::Metadata::level
/// returns, a function of the metadata alone, as the severity's rank in
/// the consumer's order.
pub uninterp spec fn meta_level(m: Metadata) -> int;

/// The source file a metadata value reports: what
/// tracing_core::Metadata::file returns, a function of the metadata alone.
pub uninterp spec fn meta_file(m: Metadata) -> Option<Seq<char>>;

/// The source line a metadata value reports: what
/// tracing_core::Metadata::line returns, a function of the metadata alone.
pub uninterp spec fn meta_line(m: Metadata) -> Option<u32>;

/// The module path a metadata value reports: what
/// tracing_core::Metadata::module_path returns, a function of the metadata
/// alone.
pub uninterp spec fn meta_module(m: Metadata) -> Option<Seq<char>>;

/// The field-name list a metadata value carries: the names of what
/// tracing_core::Metadata::fields returns, a function of the metadata
/// alone.
pub uninterp spec fn meta_field_names(m: Metadata) -> Seq<Seq<char>>;

/// The callsite identity a metadata value reports, as an opaque token:
/// what tracing_core::Metadata::callsite returns, a function of the
/// metadata alone.
pub uninterp spec fn meta_callsite(m: Metadata) -> int;

/// Whether a metadata value is of event kind: what
/// tracing_core::Metadata::is_event returns, a function of the metadata
/// alone.
pub uninterp spec fn meta_is_event(m: Metadata) -> bool;

/// A name list as character sequences, in order.
pub open spec fn names_view(names: Seq<&'static str>) -> Seq<Seq<char>> {
    Seq::new(names.len(), |i: int| names[i]@)
}

/// Relies on tracing_core::Metadata::fields: hands back the descriptor's
/// stored field set, whose names are the metadata's field-name list.
#[verifier::external_body]
fn meta_fields<'a>(meta: &'a Metadata<'a>) -> (r: &'a FieldSet)
    ensures
        fieldset_names(*r) == meta_field_names(*meta),
{
    meta.fields()
}

/// Relies on tracing_core::Metadata::level and the five Level constants:
/// reads back which consumer severity a descriptor carries; the stored
/// level stands for exactly that severity's rank.
#[verifier::external_body]
fn read_meta_level<'a>(meta: &Metadata<'a>) -> (r: TraceLevel)
    ensures
        meta_level(*meta) == trace_rank(r),
{
    let level = *meta.level();
    if level == tracing_core::Level::TRACE {
        TraceLevel::Trace
    } else if level == tracing_core::Level::DEBUG {
        TraceLevel::Debug
    } else if level == tracing_core::Level::INFO {
        TraceLevel::Info
    } else if level == tracing_core::Level::WARN {
        TraceLevel::Warn
    } else {
        TraceLevel::Error
    }
}

/// The name a field handle answers to: what tracing_core::field::Field::name
/// returns, a function of the handle alone.
pub uninterp spec fn field_name_of(f: Field) -> Seq<char>;

/// Relies on tracing_core::field::FieldSet::field: looks a name up in the
/// set's field-name list and returns its handle, `Some` exactly when the
/// name is present; the returned handle answers to the looked-up name.
#[verifier::external_body]
fn lookup_field(fs: &FieldSet, name: &str) -> (r: Option<Field>)
    ensures
        r is Some <==> fieldset_names(*fs).contains(name@),
        r matches Some(f) ==> field_name_of(f) == name@,
{
    fs.field(name)
}

/// The shared field-name table: the name of field `i` of every descriptor.
/// Downstream tooling may match on these exact names.
pub open spec fn field_name_spec(i: int) -> Seq<char> {
    if i == 0 {
        "message"@
    } else if i == 1 {
        "slog.target"@
    } else if i == 2 {
        "slog.module_path"@
    } else if i == 3 {
        "slog.file"@
    } else if i == 4 {
        "slog.line"@
    } else if i == 5 {
        "slog.column"@
    } else {
        "slog.kv"@
    }
}

/// The shared field-name table, for executable callers: both the
/// descriptor builder and the handle resolver consume this one table, so
/// the two cannot drift apart.
pub fn field_name(i: usize) -> (r: &'static str)
    requires
        i < 7,
    ensures
        r@ == field_name_spec(i as int),
{
    if i == 0 {
        "message"
    } else if i == 1 {
        "slog.target"
    } else if i == 2 {
        "slog.module_path"
    } else if i == 3 {
        "slog.file"
    } else if i == 4 {
        "slog.line"
    } else if i == 5 {
        "slog.column"
    } else {
        "slog.kv"
    }
}

/// The resolved field handles of one descriptor, in the fixed field order:
/// message, target, module path, file, line, column, key-value.
pub struct Fields {
    pub message: Field,
    pub target: Field,
    pub module: Field,
    pub file: Field,
    pub line: Field,
    pub column: Field,
    pub kv: Field,
}

/// Every name of the shared table is present in the given field set.
pub open spec fn all_names_present(fs: FieldSet) -> bool {
    forall|i: int| 0 <= i < 7 ==> fieldset_names(fs).contains(#[trigger] field_name_spec(i))
}

/// Each handle of a resolved set answers to exactly the name of its slot in
/// the shared table, so values attached through it land in the named field.
pub open spec fn handles_well_named(f: Fields) -> bool {
    &&& field_name_of(f.message) == field_name_spec(0)
    &&& field_name_of(f.target) == field_name_spec(1)
    &&& field_name_of(f.module) == field_name_spec(2)
    &&& field_name_of(f.file) == field_name_spec(3)
    &&& field_name_of(f.line) == field_name_spec(4)
    &&& field_name_of(f.column) == field_name_spec(5)
    &&& field_name_of(f.kv) == field_name_spec(6)
}

impl Fields {
    /// Resolves every name of the shared table in the given field set.
    /// `None` reports a descriptor that does not carry all the names: a
    /// configuration fault that callers must treat as fatal, never as a
    /// recoverable error. Each returned handle is bound to its own name.
    pub fn new(fs: &FieldSet) -> (r: Option<Fields>)
        ensures
            r is Some <==> all_names_present(*fs),
            r matches Some(f) ==> handles_well_named(f),
    {
        let message = lookup_field(fs, field_name(0));
        let target = lookup_field(fs, field_name(1));
        let module = lookup_field(fs, field_name(2));
        let file = lookup_field(fs, field_name(3));
        let line = lookup_field(fs, field_name(4));
        let column = lookup_field(fs, field_name(5));
        let kv = lookup_field(fs, field_name(6));
        if message.is_some() && target.is_some() && module.is_some() && file.is_some()
            && line.is_some() && column.is_some() && kv.is_some() {
            Some(
                Fields {
                    message: message.unwrap(),
                    target: target.unwrap(),
                    module: module.unwrap(),
                    file: file.unwrap(),
                    line: line.unwrap(),
                    column: column.unwrap(),
                    kv: kv.unwrap(),
                },
            )
        } else {
            None
        }
    }
}

/// One severity level's descriptor and its resolved field handles.
pub struct LevelHandles {
    pub meta: &'static Metadata<'static>,
    pub fields: Fields,
}

/// One slot is sound: its descriptor carries exactly the slot's severity,
/// the descriptor's field set holds every name of the shared table, and
/// each resolved handle answers to its own name.
pub open spec fn slot_wf(h: LevelHandles, severity: TraceLevel) -> bool {
    &&& meta_level(*h.meta) == trace_rank(severity)
    &&& (forall|i: int|
        0 <= i < 7 ==> meta_field_names(*h.meta).contains(#[trigger] field_name_spec(i)))
    &&& handles_well_named(h.fields)
}

impl LevelHandles {
    /// Builds one registry slot from a descriptor: checks the descriptor's
    /// severity and resolves the field handles. `None` reports a
    /// descriptor with the wrong severity or a missing field name: a
    /// configuration fault that callers must treat as fatal.
    pub fn new(meta: &'static Metadata<'static>, severity: TraceLevel) -> (r: Option<
        LevelHandles,
    >)
        ensures
            r matches Some(h) ==> h.meta == meta && slot_wf(h, severity),
    {
        if !(read_meta_level(meta) == severity) {
            return None;
        }
        match Fields::new(meta_fields(meta)) {
            Some(fields) => Some(LevelHandles { meta, fields }),
            None => None,
        }
    }
}

/// The five per-level descriptor slots, plus the field-name list the
/// descriptors were built with. Built once by the surrounding application,
/// immutable and only read thereafter.
pub struct Registry {
    pub names: &'static [&'static str],
    pub trace: LevelHandles,
    pub debug: LevelHandles,
    pub info: LevelHandles,
    pub warn: LevelHandles,
    pub error: LevelHandles,
}

/// The registry's filter field-name list is exactly the shared table.
pub open spec fn names_match_table(names: Seq<&'static str>) -> bool {
    names.len() == 7 && (forall|i: int| 0 <= i < 7 ==> (#[trigger] names[i])@ == field_name_spec(i))
}

/// Checks a field-name list against the shared table, name by name.
fn names_table_ok(names: &'static [&'static str]) -> (b: bool)
    ensures
        b == names_match_table(names@),
{
    if names.len() != 7 {
        return false;
    }
    let mut i: usize = 0;
    while i < 7
        invariant
            i <= 7,
            names@.len() == 7,
            forall|j: int| 0 <= j < i ==> (#[trigger] names@[j])@ == field_name_spec(j),
        decreases 7 - i,
    {
        let given: String = (*slice_index_get(names, i)).to_owned();
        let expected: String = field_name(i).to_owned();
        if !(given == expected) {
            return false;
        }
        i += 1;
    }
    true
}

impl Registry {
    /// Every slot carries its own severity with fully resolved, rightly
    /// named handles, and the filter field-name list is the shared table.
    pub open spec fn wf(self) -> bool {
        &&& names_match_table(self.names@)
        &&& slot_wf(self.trace, TraceLevel::Trace)
        &&& slot_wf(self.debug, TraceLevel::Debug)
        &&& slot_wf(self.info, TraceLevel::Info)
        &&& slot_wf(self.warn, TraceLevel::Warn)
        &&& slot_wf(self.error, TraceLevel::Error)
    }

    /// Builds a registry from the shared name list and the five per-level
    /// descriptors, validating each: every descriptor must carry its
    /// slot's severity and every name of the shared table, and the name
    /// list must be the shared table itself. `None` reports a
    /// misconfigured descriptor set: a configuration fault that callers
    /// must treat as fatal, never as a recoverable error.
    pub fn new(
        names: &'static [&'static str],
        trace: &'static Metadata<'static>,
        debug: &'static Metadata<'static>,
        info: &'static Metadata<'static>,
        warn: &'static Metadata<'static>,
        error: &'static Metadata<'static>,
    ) -> (r: Option<Registry>)
        ensures
            r matches Some(reg) ==> reg.wf() && reg.names == names,
    {
        if !names_table_ok(names) {
            return None;
        }
        let trace_slot = LevelHandles::new(trace, TraceLevel::Trace);
        let debug_slot = LevelHandles::new(debug, TraceLevel::Debug);
        let info_slot = LevelHandles::new(info, TraceLevel::Info);
        let warn_slot = LevelHandles::new(warn, TraceLevel::Warn);
        let error_slot = LevelHandles::new(error, TraceLevel::Error);
        if trace_slot.is_some() && debug_slot.is_some() && info_slot.is_some()
            && warn_slot.is_some() && error_slot.is_some() {
            Some(
                Registry {
                    names,
                    trace: trace_slot.unwrap(),
                    debug: debug_slot.unwrap(),
                    info: info_slot.unwrap(),
                    warn: warn_slot.unwrap(),
                    error: error_slot.unwrap(),
                },
            )
        } else {
            None
        }
    }

    /// The slot a producer level resolves to, through the level map.
    pub open spec fn spec_handles(self, level: SlogLevel) -> LevelHandles {
        match map_level_spec(level) {
            TraceLevel::Trace => self.trace,
            TraceLevel::Debug => self.debug,
            TraceLevel::Info => self.info,
            TraceLevel::Warn => self.warn,
            TraceLevel::Error => self.error,
        }
    }

    /// In a well-formed registry, the slot a producer level resolves to
    /// carries exactly the mapped severity, with rightly named handles.
    pub proof fn lemma_wf_slot(self, level: SlogLevel)
        requires
            self.wf(),
        ensures
            slot_wf(self.spec_handles(level), map_level_spec(level)),
    {
    }

    /// Two producer levels that map to the same consumer level resolve to
    /// the same slot: in particular Error and Critical share one
    /// descriptor.
    pub proof fn lemma_handles_follow_level_map(self, l1: SlogLevel, l2: SlogLevel)
        requires
            map_level_spec(l1) == map_level_spec(l2),
        ensures
            self.spec_handles(l1) == self.spec_handles(l2),
    {
    }

    /// Resolves a producer level to its descriptor and field handles: a
    /// pure function of the registry and the level, so all calls for one
    /// level observe the same handles.
    pub fn handles(&self, level: SlogLevel) -> (h: &LevelHandles)
        ensures
            *h == self.spec_handles(level),
    {
        match level {
            SlogLevel::Trace => &self.trace,
            SlogLevel::Debug => &self.debug,
            SlogLevel::Info => &self.info,
            SlogLevel::Warning => &self.warn,
            SlogLevel::Error => &self.error,
            SlogLevel::Critical => &self.error,
        }
    }
}

} // verus!
