//! Parameters of the trace-format plugin's file-system source and sink.

use vstd::prelude::*;
use crate::ctf_plugin::{fs_source_params, opt_str_view, push_opt, spec_fs_source_params};
use crate::error::{BtResult, Error};
use crate::value::{string_views, ParamValue, ParamValueView, Value};

verus! {

/// Initialization parameters of the file-system source.
pub struct CtfPluginSourceFsInitParams {
    params: Value,
}

impl CtfPluginSourceFsInitParams {
    pub closed spec fn spec_params(&self) -> Seq<(Seq<char>, ParamValueView)> {
        self.params@
    }

    /// Parameters with the given inputs and settings; at least one input is
    /// required.
    pub fn new(
        trace_name: Option<&str>,
        clock_class_offset_ns: Option<i64>,
        clock_class_offset_s: Option<i64>,
        force_clock_class_origin_unix_epoch: Option<bool>,
        inputs: &[String],
    ) -> (r: BtResult<Self>)
        ensures
            inputs@.len() == 0 ==> r is Err && r->Err_0 == Error::CtfSourceRequiresInputs,
            inputs@.len() > 0 ==> r is Ok && r->Ok_0.spec_params() == spec_fs_source_params(
                opt_str_view(trace_name),
                clock_class_offset_ns,
                clock_class_offset_s,
                force_clock_class_origin_unix_epoch,
                string_views(inputs@),
            ),
    {
        match fs_source_params(
            trace_name,
            clock_class_offset_ns,
            clock_class_offset_s,
            force_clock_class_origin_unix_epoch,
            inputs,
        ) {
            Ok(params) => Ok(CtfPluginSourceFsInitParams { params }),
            Err(e) => Err(e),
        }
    }

    pub fn params(&self) -> (r: &Value)
        ensures
            r@ == self.spec_params(),
    {
        &self.params
    }

    pub fn inputs_key() -> (r: &'static str)
        ensures
            r@ == "inputs"@,
    {
        "inputs"
    }

    pub fn trace_name_key() -> (r: &'static str)
        ensures
            r@ == "trace-name"@,
    {
        "trace-name"
    }

    pub fn offset_ns_key() -> (r: &'static str)
        ensures
            r@ == "clock-class-offset-ns"@,
    {
        "clock-class-offset-ns"
    }

    pub fn offset_sec_key() -> (r: &'static str)
        ensures
            r@ == "clock-class-offset-s"@,
    {
        "clock-class-offset-s"
    }

    pub fn force_epoch_key() -> (r: &'static str)
        ensures
            r@ == "force-clock-class-origin-unix-epoch"@,
    {
        "force-clock-class-origin-unix-epoch"
    }
}

/// The parameters of a file-system sink: each optional setting that is
/// given, in a fixed order, then the output path.
pub open spec fn spec_fs_sink_params(
    assume_single_trace: Option<bool>,
    ignore_discarded_events: Option<bool>,
    ignore_discarded_packets: Option<bool>,
    quiet: Option<bool>,
    path: Seq<char>,
) -> Seq<(Seq<char>, ParamValueView)> {
    let as_bool = |b: Option<bool>|
        match b {
            None => None,
            Some(v) => Some(ParamValueView::Bool(v)),
        };
    let p = push_opt(Seq::empty(), "assume-single-trace"@, as_bool(assume_single_trace));
    let p = push_opt(p, "ignore-discarded-events"@, as_bool(ignore_discarded_events));
    let p = push_opt(p, "ignore-discarded-packets"@, as_bool(ignore_discarded_packets));
    let p = push_opt(p, "quiet"@, as_bool(quiet));
    p.push(("path"@, ParamValueView::String(path)))
}

/// Initialization parameters of the file-system sink.
pub struct CtfPluginSinkFsInitParams {
    params: Value,
}

impl CtfPluginSinkFsInitParams {
    pub closed spec fn spec_params(&self) -> Seq<(Seq<char>, ParamValueView)> {
        self.params@
    }

    /// Parameters writing to the directory `path`, with the given settings.
    pub fn new(
        assume_single_trace: Option<bool>,
        ignore_discarded_events: Option<bool>,
        ignore_discarded_packets: Option<bool>,
        quiet: Option<bool>,
        path: &str,
    ) -> (r: BtResult<Self>)
        ensures
            r is Ok && r->Ok_0.spec_params() == spec_fs_sink_params(
                assume_single_trace,
                ignore_discarded_events,
                ignore_discarded_packets,
                quiet,
                path@,
            ),
    {
        let mut params = Value::new_map();
        if let Some(v) = assume_single_trace {
            params.insert_entry("assume-single-trace", ParamValue::Bool(v));
        }
        if let Some(v) = ignore_discarded_events {
            params.insert_entry("ignore-discarded-events", ParamValue::Bool(v));
        }
        if let Some(v) = ignore_discarded_packets {
            params.insert_entry("ignore-discarded-packets", ParamValue::Bool(v));
        }
        if let Some(v) = quiet {
            params.insert_entry("quiet", ParamValue::Bool(v));
        }
        params.insert_entry("path", ParamValue::String(path.to_owned()));
        assert(params@ =~= spec_fs_sink_params(
            assume_single_trace,
            ignore_discarded_events,
            ignore_discarded_packets,
            quiet,
            path@,
        ));
        Ok(CtfPluginSinkFsInitParams { params })
    }

    pub fn params(&self) -> (r: &Value)
        ensures
            r@ == self.spec_params(),
    {
        &self.params
    }

    pub fn assume_single_trace_key() -> (r: &'static str)
        ensures
            r@ == "assume-single-trace"@,
    {
        "assume-single-trace"
    }

    pub fn ignore_discarded_events_key() -> (r: &'static str)
        ensures
            r@ == "ignore-discarded-events"@,
    {
        "ignore-discarded-events"
    }

    pub fn ignore_discarded_packets_key() -> (r: &'static str)
        ensures
            r@ == "ignore-discarded-packets"@,
    {
        "ignore-discarded-packets"
    }

    pub fn quiet_key() -> (r: &'static str)
        ensures
            r@ == "quiet"@,
    {
        "quiet"
    }

    pub fn path_key() -> (r: &'static str)
        ensures
            r@ == "path"@,
    {
        "path"
    }
}

} // verus!
