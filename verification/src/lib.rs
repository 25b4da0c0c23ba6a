//! A bridge from `slog` log records to `tracing` events.
//!
//! A [`TracingSlogDrain`](drain::TracingSlogDrain) receives one record at a
//! time, maps its severity level, resolves its target, serializes its
//! key-value pairs, and hands a single event to the currently active
//! `tracing` dispatcher, skipping all of that work when no subscriber is
//! interested.

pub mod drain;
pub mod kv;
pub mod level;
pub mod record;
pub mod registry;

pub use drain::Delivery;
pub use drain::EventRecord;
pub use drain::TracingSlogDrain;
pub use drain::build_event;
pub use drain::check_interest;
pub use drain::deliver;
pub use drain::finish;
pub use kv::KvPair;
pub use kv::TracingKvSerializer;
pub use level::SlogLevel;
pub use level::TraceLevel;
pub use level::sloglevel_to_trace;
pub use record::Record;
pub use record::get_target;
pub use registry::Fields;
pub use registry::LevelHandles;
pub use registry::Registry;
pub use registry::field_name;
