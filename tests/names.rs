use babeltrace2_sys::{
    Component, CtfPlugin, CtfPluginSinkFsInitParams, CtfPluginSourceFsInitParams,
    CtfPluginSourceInitParams, CtfPluginSourceLttnLiveInitParams, ProxyPlugin,
    SessionNotFoundAction, UtilsPlugin,
};

#[test]
fn component_cstrings_are_valid() {
    assert_ne!(Component::in_port_name().len(), 0);
}

#[test]
fn ctf_plugin_cstrings_are_valid() {
    assert_ne!(CtfPlugin::plugin_name().len(), 0);
    assert_ne!(CtfPlugin::fs_name().len(), 0);
    assert_ne!(CtfPlugin::graph_node_name().len(), 0);
    assert_ne!(CtfPluginSourceInitParams::inputs_key().len(), 0);
    assert_ne!(CtfPluginSourceInitParams::trace_name_key().len(), 0);
    assert_ne!(CtfPluginSourceInitParams::offset_ns_key().len(), 0);
    assert_ne!(CtfPluginSourceInitParams::offset_sec_key().len(), 0);
    assert_ne!(CtfPluginSourceInitParams::force_epoch_key().len(), 0);
}

#[test]
fn source_cstrings_are_valid() {
    assert_ne!(CtfPluginSourceFsInitParams::inputs_key().len(), 0);
    assert_ne!(CtfPluginSourceFsInitParams::trace_name_key().len(), 0);
    assert_ne!(CtfPluginSourceFsInitParams::offset_ns_key().len(), 0);
    assert_ne!(CtfPluginSourceFsInitParams::offset_sec_key().len(), 0);
    assert_ne!(CtfPluginSourceFsInitParams::force_epoch_key().len(), 0);
}

#[test]
fn sink_cstrings_are_valid() {
    assert_ne!(CtfPluginSinkFsInitParams::assume_single_trace_key().len(), 0);
    assert_ne!(CtfPluginSinkFsInitParams::ignore_discarded_events_key().len(), 0);
    assert_ne!(CtfPluginSinkFsInitParams::ignore_discarded_packets_key().len(), 0);
    assert_ne!(CtfPluginSinkFsInitParams::quiet_key().len(), 0);
    assert_ne!(CtfPluginSinkFsInitParams::path_key().len(), 0);
}

#[test]
fn lttng_live_cstrings_are_valid() {
    assert_ne!(CtfPluginSourceLttnLiveInitParams::inputs_key().len(), 0);
    assert_ne!(CtfPluginSourceLttnLiveInitParams::session_not_found_action_key().len(), 0);
    assert_ne!(SessionNotFoundAction::Continue.as_str().len(), 0);
    assert_ne!(SessionNotFoundAction::Fail.as_str().len(), 0);
    assert_ne!(SessionNotFoundAction::End.as_str().len(), 0);
}

#[test]
fn mod_cstrings_are_valid() {
    assert_ne!(CtfPlugin::plugin_name().len(), 0);
    assert_ne!(CtfPlugin::fs_name().len(), 0);
    assert_ne!(CtfPlugin::lttng_live_name().len(), 0);
    assert_ne!(CtfPlugin::graph_node_name().len(), 0);
}

#[test]
fn proxy_plugin_cstrings_are_valid() {
    assert_ne!(ProxyPlugin::plugin_name().len(), 0);
    assert_ne!(ProxyPlugin::output_name().len(), 0);
    assert_ne!(ProxyPlugin::graph_node_name().len(), 0);
    assert_ne!(ProxyPlugin::init_method_name().len(), 0);
    assert_ne!(ProxyPlugin::fini_method_name().len(), 0);
    assert_ne!(ProxyPlugin::graph_is_configured_method_name().len(), 0);
}

#[test]
fn utils_plugin_cstrings_are_valid() {
    assert_ne!(UtilsPlugin::plugin_name().len(), 0);
    assert_ne!(UtilsPlugin::muxer_name().len(), 0);
    assert_ne!(UtilsPlugin::graph_node_name().len(), 0);
}

#[test]
fn session_not_found_action_names() {
    assert_eq!(SessionNotFoundAction::Continue.as_str(), "continue");
    assert_eq!(SessionNotFoundAction::Fail.as_str(), "fail");
    assert_eq!(SessionNotFoundAction::End.as_str(), "end");
}
