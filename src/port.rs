//! Ports: typed, directed connection points of components.

use vstd::prelude::*;

verus! {

/// The three kinds of component.
#[derive(Clone, Copy, PartialEq, Eq, Structural, PartialOrd, Ord, Hash, Debug)]
pub enum ComponentKind {
    Source,
    Filter,
    Sink,
}

/// Whether a port receives or emits messages.
#[derive(Clone, Copy, PartialEq, Eq, Structural, PartialOrd, Ord, Hash, Debug)]
pub enum PortDirection {
    Input,
    Output,
}

/// A port: its direction, the kind of its owning component, and its index
/// among that component's ports of the same direction.
#[derive(Clone, Copy, PartialEq, Eq, Structural, PartialOrd, Ord, Hash, Debug)]
pub struct Port {
    pub direction: PortDirection,
    pub component: ComponentKind,
    pub index: u64,
}

/// Whether a component of this kind may have ports of this direction.
pub open spec fn spec_port_allowed(component: ComponentKind, direction: PortDirection) -> bool {
    match component {
        ComponentKind::Source => direction == PortDirection::Output,
        ComponentKind::Filter => true,
        ComponentKind::Sink => direction == PortDirection::Input,
    }
}

impl Port {
    /// A port, when a component of that kind may have it: sources only emit,
    /// sinks only receive.
    pub fn new(direction: PortDirection, component: ComponentKind, index: u64) -> (r: Option<Port>)
        ensures
            r.is_some() == spec_port_allowed(component, direction),
            r.is_some() ==> r.unwrap() == (Port { direction, component, index }),
    {
        let allowed = match component {
            ComponentKind::Source => direction == PortDirection::Output,
            ComponentKind::Filter => true,
            ComponentKind::Sink => direction == PortDirection::Input,
        };
        if allowed {
            Some(Port { direction, component, index })
        } else {
            None
        }
    }
}

} // verus!
