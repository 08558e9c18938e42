//! Names of the utilities plugin and of component ports.

use vstd::prelude::*;

verus! {

/// The utilities plugin, which provides the multiplexing filter.
pub struct UtilsPlugin;

impl UtilsPlugin {
    pub fn plugin_name() -> (r: &'static str)
        ensures
            r@ == "utils"@,
    {
        "utils"
    }

    pub fn muxer_name() -> (r: &'static str)
        ensures
            r@ == "muxer"@,
    {
        "muxer"
    }

    /// Name of the multiplexer's node in a graph.
    pub fn graph_node_name() -> (r: &'static str)
        ensures
            r@ == "filter.utils.muxer"@,
    {
        "filter.utils.muxer"
    }
}

/// Names that components give their ports.
pub struct Component;

impl Component {
    /// Name of a component's input port.
    pub fn in_port_name() -> (r: &'static str)
        ensures
            r@ == "in"@,
    {
        "in"
    }

    /// Name of a component's output port.
    pub fn out_port_name() -> (r: &'static str)
        ensures
            r@ == "out"@,
    {
        "out"
    }
}

} // verus!
