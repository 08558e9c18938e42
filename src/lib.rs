//! Verified core of a trace-processing library: the packet-property decoder
//! and its byte medium, the proxy sink that turns a push-driven graph into a
//! pull interface, the graph's run state and wiring, and the plain-value
//! models of traces, streams, events and component parameters.
//!
//! The trace engine itself (its graph, plugins and binary decoder) is driven
//! by the embedding code, which hands this library what the engine reported
//! and does what the library decides.

mod clock;
mod ctf_fs;
mod ctf_iterator;
mod ctf_plugin;
mod ctf_stream;
mod env;
mod error;
mod event;
mod field;
mod graph;
pub mod internal_api;
mod logger;
mod lttng_live;
mod message;
mod message_iterator;
mod port;
mod proxy_plugin;
pub mod status;
mod stream;
mod trace;
mod util;
mod utils_plugin;
mod value;

pub use clock::{
    opt_clock_view, ClockClass, ClockClassProperties, ClockClassPropertiesView, ClockCycles,
    ClockNanoseconds, ClockSnapshot,
};
pub use ctf_fs::{spec_fs_sink_params, CtfPluginSinkFsInitParams, CtfPluginSourceFsInitParams};
pub use ctf_iterator::{CtfIterator, PullStep};
pub use ctf_plugin::{
    copy_strings, fs_source_params, opt_str_view, push_opt, spec_fs_source_params, CtfPlugin,
    CtfPluginSourceInitParams,
};
pub use ctf_stream::CtfStream;
pub use env::{
    compare_keys, entries_view, env_insert, env_sorted, key_lt, lemma_env_insert_members,
    lemma_env_insert_sorted, Env, EnvValue, EnvValueView,
};
pub use error::{capi_status, BtResult, BtResultExt, Error};
pub use event::{
    spec_opt_field, Event, EventClass, EventClassProperties, EventClassPropertiesView, EventId,
    EventLogLevel, EventProperties, EventPropertiesView, OwnedEvent, OwnedEventView,
};
pub use field::{
    field_views, members_fold, opt_field_view, spec_labels, texts, Field, FieldType, OwnedField,
    OwnedFieldView, ScalarField, ScalarFieldView,
};
pub use graph::{
    check_pipeline_ports, decoder_connection_plan, encoder_connection_plan, lemma_end_is_sticky,
    run_status_from_code, spec_decoder_plan, spec_run_once, spec_run_status, Connection, Graph,
    RunStatus,
};
pub use logger::LoggingLevel;
pub use lttng_live::{
    spec_lttng_live_params, CtfPluginSourceLttnLiveInitParams, SessionNotFoundAction,
};
pub use message::{Message, MessageArray, MessageType};
pub use message_iterator::{
    next_method_outcome, source_initialize_status, spec_next_method_outcome,
    spec_source_initialize_status, MessageIteratorStatus, NextStatus,
};
pub use port::{spec_port_allowed, ComponentKind, Port, PortDirection};
pub use proxy_plugin::{
    batch_events, batch_prefix, bump, consume_all, consume_status, event_views, insert_stream,
    lemma_events_in_arrival_order, lemma_stream_capture_is_set_insert,
    lemma_trace_capture_idempotent, lemma_trace_capture_stable, message_step, spec_consume,
    steps_events, stream_views, streams_distinct,
    ConsumeError, ConsumeSuccessCode, ProxyPlugin, ProxyPluginState, ProxyStateView, SinkPhase,
};
pub use stream::{Stream, StreamId, StreamProperties, StreamPropertiesView};
pub use trace::{
    env_prefix, env_step, lemma_env_prefix_sorted, EnvEntry, RawEnvValue, Trace, TraceProperties, TracePropertiesView,
};
pub use util::{
    be_value, opt_bytes, opt_owned_cstr, opt_text, opt_text_eq, opt_uuid, pow256, spec_opt_text,
    spec_opt_uuid, utf8_decoded, uuid_from_bytes, is_word, lower_of, trimmed_of,
};
pub use utils_plugin::{Component, UtilsPlugin};
pub use value::{entry_views, string_views, ParamValue, ParamValueView, Value};
