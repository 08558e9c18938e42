//! The trace-format plugin's names, and the parameters of its file-system
//! source.

use vstd::prelude::*;
use crate::error::{BtResult, Error};
use crate::value::{string_views, ParamValue, ParamValueView, Value};

verus! {

/// The trace-format plugin, which provides the file-system and live sources
/// and the file-system sink.
pub struct CtfPlugin;

impl CtfPlugin {
    pub fn plugin_name() -> (r: &'static str)
        ensures
            r@ == "ctf"@,
    {
        "ctf"
    }

    pub fn fs_name() -> (r: &'static str)
        ensures
            r@ == "fs"@,
    {
        "fs"
    }

    pub fn lttng_live_name() -> (r: &'static str)
        ensures
            r@ == "lttng-live"@,
    {
        "lttng-live"
    }

    /// Name of the source's node in a graph.
    pub fn graph_node_name() -> (r: &'static str)
        ensures
            r@ == "source.ctf"@,
    {
        "source.ctf"
    }

    /// Name of the source's node in a decoding graph.
    pub fn source_graph_node_name() -> (r: &'static str)
        ensures
            r@ == "source.ctf"@,
    {
        "source.ctf"
    }

    /// Name of the sink's node in an encoding graph.
    pub fn sink_graph_node_name() -> (r: &'static str)
        ensures
            r@ == "sink.ctf"@,
    {
        "sink.ctf"
    }
}

pub open spec fn opt_str_view(s: Option<&str>) -> Option<Seq<char>> {
    match s {
        None => None,
        Some(t) => Some(t@),
    }
}

/// Appends an entry when the value is present.
pub open spec fn push_opt(
    entries: Seq<(Seq<char>, ParamValueView)>,
    key: Seq<char>,
    value: Option<ParamValueView>,
) -> Seq<(Seq<char>, ParamValueView)> {
    match value {
        None => entries,
        Some(v) => entries.push((key, v)),
    }
}

/// The parameters of a file-system source: the inputs, then each optional
/// setting that is given, in a fixed order.
pub open spec fn spec_fs_source_params(
    trace_name: Option<Seq<char>>,
    clock_class_offset_ns: Option<i64>,
    clock_class_offset_s: Option<i64>,
    force_clock_class_origin_unix_epoch: Option<bool>,
    inputs: Seq<Seq<char>>,
) -> Seq<(Seq<char>, ParamValueView)> {
    let p = seq![("inputs"@, ParamValueView::StringArray(inputs))];
    let p = push_opt(
        p,
        "trace-name"@,
        match trace_name {
            None => None,
            Some(n) => Some(ParamValueView::String(n)),
        },
    );
    let p = push_opt(
        p,
        "clock-class-offset-ns"@,
        match clock_class_offset_ns {
            None => None,
            Some(v) => Some(ParamValueView::SignedInteger(v)),
        },
    );
    let p = push_opt(
        p,
        "clock-class-offset-s"@,
        match clock_class_offset_s {
            None => None,
            Some(v) => Some(ParamValueView::SignedInteger(v)),
        },
    );
    push_opt(
        p,
        "force-clock-class-origin-unix-epoch"@,
        match force_clock_class_origin_unix_epoch {
            None => None,
            Some(v) => Some(ParamValueView::Bool(v)),
        },
    )
}

/// Copies a list of strings.
pub fn copy_strings(s: &[String]) -> (r: Vec<String>)
    ensures
        string_views(r@) == string_views(s@),
{
    let mut r: Vec<String> = Vec::new();
    let mut i: usize = 0;
    while i < s.len()
        invariant
            i <= s@.len(),
            string_views(r@) =~= string_views(s@.take(i as int)),
        decreases s@.len() - i,
    {
        let c = s[i].clone();
        assert(c@ == s@[i as int]@);
        let ghost before = string_views(r@);
        r.push(c);
        assert(string_views(r@) =~= before.push(c@));
        assert(string_views(s@.take(i as int + 1)) =~= string_views(s@.take(i as int)).push(
            s@[i as int]@,
        ));
        i = i + 1;
    }
    assert(s@.take(s@.len() as int) =~= s@);
    r
}

/// Builds the parameters of a file-system source; at least one input is
/// required.
pub fn fs_source_params(
    trace_name: Option<&str>,
    clock_class_offset_ns: Option<i64>,
    clock_class_offset_s: Option<i64>,
    force_clock_class_origin_unix_epoch: Option<bool>,
    inputs: &[String],
) -> (r: BtResult<Value>)
    ensures
        inputs@.len() == 0 ==> r == Err::<Value, Error>(Error::CtfSourceRequiresInputs),
        inputs@.len() > 0 ==> r.is_ok() && r.unwrap()@ == spec_fs_source_params(
            opt_str_view(trace_name),
            clock_class_offset_ns,
            clock_class_offset_s,
            force_clock_class_origin_unix_epoch,
            string_views(inputs@),
        ),
{
    if inputs.len() == 0 {
        return Err(Error::CtfSourceRequiresInputs);
    }
    let mut params = Value::new_map();
    params.insert_entry("inputs", ParamValue::StringArray(copy_strings(inputs)));
    if let Some(n) = trace_name {
        params.insert_entry("trace-name", ParamValue::String(n.to_owned()));
    }
    if let Some(v) = clock_class_offset_ns {
        params.insert_entry("clock-class-offset-ns", ParamValue::SignedInteger(v));
    }
    if let Some(v) = clock_class_offset_s {
        params.insert_entry("clock-class-offset-s", ParamValue::SignedInteger(v));
    }
    if let Some(v) = force_clock_class_origin_unix_epoch {
        params.insert_entry("force-clock-class-origin-unix-epoch", ParamValue::Bool(v));
    }
    assert(params@ =~= spec_fs_source_params(
        opt_str_view(trace_name),
        clock_class_offset_ns,
        clock_class_offset_s,
        force_clock_class_origin_unix_epoch,
        string_views(inputs@),
    ));
    Ok(params)
}

/// Initialization parameters of the file-system source.
pub struct CtfPluginSourceInitParams {
    params: Value,
}

impl CtfPluginSourceInitParams {
    pub closed spec fn spec_params(&self) -> Seq<(Seq<char>, ParamValueView)> {
        self.params@
    }

    /// Parameters with the given inputs and settings; at least one input is
    /// required.
    pub fn new(
        trace_name: Option<&str>,
        clock_class_offset_ns: Option<i64>,
        clock_class_offset_s: Option<i64>,
        force_clock_class_origin_unix_epoch: Option<bool>,
        inputs: &[String],
    ) -> (r: BtResult<Self>)
        ensures
            inputs@.len() == 0 ==> r is Err && r->Err_0 == Error::CtfSourceRequiresInputs,
            inputs@.len() > 0 ==> r is Ok && r->Ok_0.spec_params() == spec_fs_source_params(
                opt_str_view(trace_name),
                clock_class_offset_ns,
                clock_class_offset_s,
                force_clock_class_origin_unix_epoch,
                string_views(inputs@),
            ),
    {
        match fs_source_params(
            trace_name,
            clock_class_offset_ns,
            clock_class_offset_s,
            force_clock_class_origin_unix_epoch,
            inputs,
        ) {
            Ok(params) => Ok(CtfPluginSourceInitParams { params }),
            Err(e) => Err(e),
        }
    }

    pub fn params(&self) -> (r: &Value)
        ensures
            r@ == self.spec_params(),
    {
        &self.params
    }

    pub fn inputs_key() -> (r: &'static str)
        ensures
            r@ == "inputs"@,
    {
        "inputs"
    }

    pub fn trace_name_key() -> (r: &'static str)
        ensures
            r@ == "trace-name"@,
    {
        "trace-name"
    }

    pub fn offset_ns_key() -> (r: &'static str)
        ensures
            r@ == "clock-class-offset-ns"@,
    {
        "clock-class-offset-ns"
    }

    pub fn offset_sec_key() -> (r: &'static str)
        ensures
            r@ == "clock-class-offset-s"@,
    {
        "clock-class-offset-s"
    }

    pub fn force_epoch_key() -> (r: &'static str)
        ensures
            r@ == "force-clock-class-origin-unix-epoch"@,
    {
        "force-clock-class-origin-unix-epoch"
    }
}

} // verus!
