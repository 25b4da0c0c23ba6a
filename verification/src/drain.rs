//! The drain adapter: the entry point that receives one producer record,
//! checks whether any subscriber is interested, and — only then — maps the
//! level, resolves the target, serializes the key-value pairs, assembles the
//! field values in their fixed order and hands exactly one event to the
//! consumer dispatcher.

use crate::kv::TracingKvSerializer;
use crate::kv::kv_accum;
use crate::kv::kv_field_spec;
use crate::level::TraceLevel;
use crate::level::map_level_spec;
use crate::level::sloglevel_to_trace;
use crate::level::trace_rank;
use crate::record::Record;
use crate::record::get_target;
use crate::record::target_spec;
use crate::registry::Fields;
use crate::registry::Registry;
use crate::registry::meta_callsite;
use crate::registry::meta_field_names;
use crate::registry::meta_file;
use crate::registry::meta_is_event;
use crate::registry::meta_level;
use crate::registry::meta_line;
use crate::registry::meta_module;
use crate::registry::meta_name;
use crate::registry::meta_target;
use crate::registry::names_view;
use tracing_core::Dispatch;
use tracing_core::Metadata;
use vstd::prelude::*;

verus! {

#[verifier::external_type_specification]
#[verifier::external_body]
pub struct ExDispatch(Dispatch);

/// The kind label every per-record filter metadata carries.
pub fn record_kind_label() -> (r: &'static str)
    ensures
        r@ == "slog record"@,
{
    "slog record"
}

/// Relies on tracing_core::dispatcher::get_default: hands back an owned
/// handle to the dispatcher currently installed for this thread. Which one
/// that is depends on the surrounding application, so nothing more is
/// promised.
#[verifier::external_body]
fn current_dispatch() -> Dispatch {
    tracing_core::dispatcher::get_default(Dispatch::clone)
}

/// Relies on tracing_core::Metadata::new (with FieldSet::new): packs the
/// given record data, under the given kind label, with the severity level
/// and callsite identity of the level's registered descriptor and the
/// given field-name list, into event-kind per-record metadata the
/// dispatcher filters on. Metadata::new stores each argument verbatim and
/// the accessors hand it back unchanged.
#[verifier::external_body]
fn make_filter_metadata<'a>(
    level_meta: &'static Metadata<'static>,
    names: &'static [&'static str],
    kind_label: &'static str,
    target: &'a str,
    module: &'a str,
    file: &'a str,
    line: u32,
) -> (m: Metadata<'a>)
    ensures
        meta_name(m) == kind_label@,
        meta_target(m) == target@,
        meta_level(m) == meta_level(*level_meta),
        meta_file(m) == Some(file@),
        meta_line(m) == Some(line),
        meta_module(m) == Some(module@),
        meta_field_names(m) == names_view(names@),
        meta_callsite(m) == meta_callsite(*level_meta),
        meta_is_event(m),
{
    Metadata::new(
        kind_label,
        target,
        *level_meta.level(),
        Some(file),
        Some(line),
        Some(module),
        tracing_core::field::FieldSet::new(names, level_meta.callsite()),
        tracing_core::metadata::Kind::EVENT,
    )
}

/// Relies on tracing_core::Dispatch::enabled: asks the active subscriber
/// whether it would accept an event described by this metadata. The answer
/// is the subscriber's alone; nothing is promised of it.
#[verifier::external_body]
fn dispatch_enabled<'a>(dispatch: &Dispatch, meta: &Metadata<'a>) -> (b: bool) {
    dispatch.enabled(meta)
}

/// Relies on tracing_core::Dispatch::event (with Event::new and
/// FieldSet::value_set): builds the value set in the fixed field order —
/// message, target, module path, file, line, column, key-value — and hands
/// it to the dispatcher as one event; the dispatcher may still consult its
/// subscriber before forwarding it. An absent key-value content is passed
/// as an explicitly valueless field.
#[verifier::external_body]
fn dispatch_event(
    dispatch: &Dispatch,
    meta: &'static Metadata<'static>,
    fields: &Fields,
    message: &str,
    target: &str,
    module: &str,
    file: &str,
    line: u32,
    column: u32,
    kv: Option<&str>,
) {
    let values = [
        (&fields.message, Some(&message as &dyn tracing_core::field::Value)),
        (&fields.target, Some(&target)),
        (&fields.module, Some(&module)),
        (&fields.file, Some(&file)),
        (&fields.line, Some(&line)),
        (&fields.column, Some(&column)),
        (&fields.kv, match kv.as_ref() { Some(s) => Some(s), None => None }),
    ];
    let value_set = meta.fields().value_set(&values);
    dispatch.event(&tracing_core::Event::new(meta, &value_set));
}

/// One translated event, exactly as its content is handed to the
/// dispatcher.
pub struct EventRecord {
    pub level: TraceLevel,
    pub message: String,
    pub target: String,
    pub module: String,
    pub file: String,
    pub line: u32,
    pub column: u32,
    pub kv: Option<String>,
}

/// What the translation owes for a record: the level mapped by the level
/// map, the target resolved tag-over-module, message and source location
/// carried through unchanged, and the key-value field serialized in
/// producer order — absent, not empty, when there are no pairs.
pub open spec fn event_matches(r: Record, e: EventRecord) -> bool {
    &&& e.level == map_level_spec(r.level)
    &&& e.message@ == r.msg@
    &&& e.target@ == target_spec(r)
    &&& e.module@ == r.module@
    &&& e.file@ == r.file@
    &&& e.line == r.line
    &&& e.column == r.column
    &&& match e.kv {
        Some(s) => kv_field_spec(r.pairs@) == Some(s@),
        None => kv_field_spec(r.pairs@) is None,
    }
}

/// Builds the full event content for one record, serializing the pairs in
/// the order the record presents them.
pub fn build_event(record: &Record) -> (e: EventRecord)
    ensures
        event_matches(*record, e),
{
    let mut ser = TracingKvSerializer::default();
    let n = record.pairs.len();
    let mut i: usize = 0;
    while i < n
        invariant
            i <= n,
            n == record.pairs@.len(),
            ser.storage@ == kv_accum(record.pairs@.take(i as int)),
        decreases n - i,
    {
        let p = &record.pairs[i];
        ser.emit_pair(p.key.as_str(), p.value.as_str());
        proof {
            assert(record.pairs@.take((i + 1) as int).drop_last() =~= record.pairs@.take(
                i as int,
            ));
            assert(record.pairs@.take((i + 1) as int).last() == record.pairs@[i as int]);
        }
        i += 1;
    }
    proof {
        assert(record.pairs@.take(n as int) =~= record.pairs@);
    }
    let kv = match ser.as_str() {
        Some(s) => Some(s.to_owned()),
        None => None,
    };
    EventRecord {
        level: sloglevel_to_trace(record.level),
        message: record.msg.clone(),
        target: get_target(record).to_owned(),
        module: record.module.clone(),
        file: record.file.clone(),
        line: record.line,
        column: record.column,
        kv,
    }
}

/// Builds the per-record filter metadata: the record-kind label, the
/// resolved target, the mapped severity and the source location, with the
/// shared field-name list and the callsite identity of the level's
/// registered descriptor, as event-kind metadata.
pub fn slogrecord_to_trace<'a>(registry: &Registry, record: &'a Record) -> (m: Metadata<'a>)
    requires
        registry.wf(),
    ensures
        meta_name(m) == "slog record"@,
        meta_target(m) == target_spec(*record),
        meta_level(m) == trace_rank(map_level_spec(record.level)),
        meta_file(m) == Some(record.file@),
        meta_line(m) == Some(record.line),
        meta_module(m) == Some(record.module@),
        meta_field_names(m) == names_view(registry.names@),
        meta_callsite(m) == meta_callsite(*registry.spec_handles(record.level).meta),
        meta_is_event(m),
{
    proof {
        registry.lemma_wf_slot(record.level);
    }
    let handles = registry.handles(record.level);
    make_filter_metadata(
        handles.meta,
        registry.names,
        record_kind_label(),
        get_target(record),
        record.module.as_str(),
        record.file.as_str(),
        record.line,
    )
}

/// Asks the dispatcher whether any subscriber would accept this record,
/// without doing any of the translation work. The answer is the
/// subscriber's; the caller decides what to skip on it.
pub fn check_interest(dispatch: &Dispatch, registry: &Registry, record: &Record) -> (b: bool)
    requires
        registry.wf(),
{
    let filter_meta = slogrecord_to_trace(registry, record);
    dispatch_enabled(dispatch, &filter_meta)
}

/// Translates one record and hands it to the dispatcher as exactly one
/// event, returning the content that was delivered. The event is
/// dispatched under the level's registered descriptor, which carries the
/// mapped severity.
pub fn deliver(dispatch: &Dispatch, registry: &Registry, record: &Record) -> (e: EventRecord)
    requires
        registry.wf(),
    ensures
        event_matches(*record, e),
        meta_level(*registry.spec_handles(record.level).meta) == trace_rank(
            map_level_spec(record.level),
        ),
{
    proof {
        registry.lemma_wf_slot(record.level);
    }
    let e = build_event(record);
    let handles = registry.handles(record.level);
    let kv_ref = match &e.kv {
        Some(s) => Some(s.as_str()),
        None => None,
    };
    dispatch_event(
        dispatch,
        handles.meta,
        &handles.fields,
        e.message.as_str(),
        e.target.as_str(),
        e.module.as_str(),
        e.file.as_str(),
        e.line,
        e.column,
        kv_ref,
    );
    e
}

/// The outcome of one producer log call: skipped because no subscriber was
/// interested, or delivered with the given content.
pub enum Delivery {
    Skipped,
    Delivered(EventRecord),
}

/// Decides the outcome of one record from the interest answer: an
/// interested subscriber gets exactly one delivery, with the exact
/// translated content; an uninterested one gets none, and none of the
/// translation work is done.
pub fn finish(
    dispatch: &Dispatch,
    registry: &Registry,
    record: &Record,
    interested: bool,
) -> (d: Delivery)
    requires
        registry.wf(),
    ensures
        interested <==> d matches Delivery::Delivered(_),
        d matches Delivery::Delivered(e) ==> event_matches(*record, e),
{
    if interested {
        Delivery::Delivered(deliver(dispatch, registry, record))
    } else {
        Delivery::Skipped
    }
}

/// A slog drain that converts each record into one tracing event and
/// dispatches it to the active tracing dispatcher.
#[derive(Debug)]
pub struct TracingSlogDrain;

impl TracingSlogDrain {
    /// Translates one record against the given dispatcher: first the
    /// interest check, then — only when some subscriber cares — the
    /// key-value serialization, the event construction and its delivery.
    /// A skipped record does no serialization work at all.
    pub fn log_to(
        &self,
        dispatch: &Dispatch,
        registry: &Registry,
        record: &Record,
    ) -> (d: Delivery)
        requires
            registry.wf(),
        ensures
            d matches Delivery::Delivered(e) ==> event_matches(*record, e),
            meta_level(*registry.spec_handles(record.level).meta) == trace_rank(
                map_level_spec(record.level),
            ),
    {
        proof {
            registry.lemma_wf_slot(record.level);
        }
        let interested = check_interest(dispatch, registry, record);
        finish(dispatch, registry, record, interested)
    }

    /// Translates one record against the dispatcher currently installed
    /// for this thread. This producer-facing entry point cannot fail.
    pub fn log(&self, registry: &Registry, record: &Record) -> (d: Delivery)
        requires
            registry.wf(),
        ensures
            d matches Delivery::Delivered(e) ==> event_matches(*record, e),
            meta_level(*registry.spec_handles(record.level).meta) == trace_rank(
                map_level_spec(record.level),
            ),
    {
        let dispatch = current_dispatch();
        self.log_to(&dispatch, registry, record)
    }
}

} // verus!
