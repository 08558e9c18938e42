//! Step-driven execution of a component graph, and how a decoding pipeline
//! is wired.

use vstd::prelude::*;
use crate::error::{BtResult, Error};
use crate::port::{ComponentKind, Port, PortDirection};
use crate::status::{STATUS_AGAIN, STATUS_END, STATUS_OK};

verus! {

/// What one scheduling step of a graph achieved.
#[derive(Clone, Copy, PartialEq, Eq, Structural, PartialOrd, Ord, Hash, Debug)]
pub enum RunStatus {
    /// Progress was made; more steps are expected.
    Progress,
    /// No component could progress now; back off and retry.
    TryAgain,
    /// Every sink is finished; no further step is meaningful.
    End,
}

/// The meaning of the engine's status for one graph step.
pub open spec fn spec_run_status(code: i32) -> BtResult<RunStatus> {
    if code == STATUS_OK {
        Ok(RunStatus::Progress)
    } else if code == STATUS_END {
        Ok(RunStatus::End)
    } else if code == STATUS_AGAIN {
        Ok(RunStatus::TryAgain)
    } else {
        Err(Error::Failure(code as isize))
    }
}

pub fn run_status_from_code(code: i32) -> (r: BtResult<RunStatus>)
    ensures
        r == spec_run_status(code),
{
    if code == STATUS_OK {
        Ok(RunStatus::Progress)
    } else if code == STATUS_END {
        Ok(RunStatus::End)
    } else if code == STATUS_AGAIN {
        Ok(RunStatus::TryAgain)
    } else {
        Err(Error::Failure(code as isize))
    }
}

/// The run state of a graph. Once a step has reported `End`, the graph is
/// ended for good: every later step reports `End` without asking the engine.
pub struct Graph {
    ended: bool,
}

/// The graph's state and report after a step whose engine status would be
/// `code`.
pub open spec fn spec_run_once(ended: bool, code: i32) -> (bool, BtResult<RunStatus>) {
    if ended {
        (true, Ok(RunStatus::End))
    } else {
        let r = spec_run_status(code);
        (r == Ok::<RunStatus, Error>(RunStatus::End), r)
    }
}

impl Graph {
    pub closed spec fn spec_ended(&self) -> bool {
        self.ended
    }

    /// A graph that has not run yet.
    pub fn new() -> (r: Graph)
        ensures
            !r.spec_ended(),
    {
        Graph { ended: false }
    }

    /// Whether a step has reported `End`; the engine need not be stepped
    /// any more.
    pub fn is_ended(&self) -> (r: bool)
        ensures
            r == self.spec_ended(),
    {
        self.ended
    }

    /// Records one scheduling step, given the engine's status for it (not
    /// looked at once the graph has ended).
    pub fn run_once(&mut self, engine_code: i32) -> (r: BtResult<RunStatus>)
        ensures
            (final(self).spec_ended(), r) == spec_run_once(old(self).spec_ended(), engine_code),
    {
        if self.ended {
            return Ok(RunStatus::End);
        }
        let r = run_status_from_code(engine_code);
        if let Ok(RunStatus::End) = r {
            self.ended = true;
        }
        r
    }
}

/// `End` is sticky: once a step of a graph has reported `End`, every later
/// step reports `End`, whatever the engine says.
pub proof fn lemma_end_is_sticky(ended: bool, code: i32, later: Seq<i32>)
    requires
        spec_run_once(ended, code).1 == Ok::<RunStatus, Error>(RunStatus::End),
    ensures
        spec_run_once(ended, code).0,
        forall|i: int|
            0 <= i < later.len() ==> #[trigger] spec_run_once(true, later[i]) == (
                true,
                Ok::<RunStatus, Error>(RunStatus::End),
            ),
{
}

/// Checks the port counts of a decoding pipeline before it is connected:
/// the source must expose an output port (the input holds a stream) and
/// the sink an input port.
pub fn check_pipeline_ports(source_output_ports: u64, sink_input_ports: u64) -> (r: BtResult<()>)
    ensures
        source_output_ports == 0 ==> r == Err::<(), Error>(Error::CtfSourceMissingOutputPorts),
        source_output_ports != 0 && sink_input_ports == 0 ==> r == Err::<(), Error>(
            Error::ProxySinkMissingInputPort,
        ),
        source_output_ports != 0 && sink_input_ports != 0 ==> r == Ok::<(), Error>(()),
{
    if source_output_ports == 0 {
        Err(Error::CtfSourceMissingOutputPorts)
    } else if sink_input_ports == 0 {
        Err(Error::ProxySinkMissingInputPort)
    } else {
        Ok(())
    }
}

/// A connection from an output port to an input port.
#[derive(Clone, Copy, PartialEq, Eq, Structural, Debug)]
pub struct Connection {
    pub upstream: Port,
    pub downstream: Port,
}

/// The connections of a decoding pipeline whose source has `n` output
/// ports: source output `i` to multiplexer input `i`, in order, then the
/// multiplexer's output to the sink's input.
pub open spec fn spec_decoder_plan(n: nat) -> Seq<Connection> {
    Seq::new(
        n,
        |i: int|
            Connection {
                upstream: Port {
                    direction: PortDirection::Output,
                    component: ComponentKind::Source,
                    index: i as u64,
                },
                downstream: Port {
                    direction: PortDirection::Input,
                    component: ComponentKind::Filter,
                    index: i as u64,
                },
            },
    ).push(
        Connection {
            upstream: Port {
                direction: PortDirection::Output,
                component: ComponentKind::Filter,
                index: 0,
            },
            downstream: Port { direction: PortDirection::Input, component: ComponentKind::Sink, index: 0 },
        },
    )
}

/// The connections to make in a decoding pipeline, in order.
pub fn decoder_connection_plan(source_output_ports: u64) -> (r: Vec<Connection>)
    requires
        source_output_ports < usize::MAX,
    ensures
        r@ == spec_decoder_plan(source_output_ports as nat),
{
    let mut r: Vec<Connection> = Vec::new();
    let mut i: u64 = 0;
    while i < source_output_ports
        invariant
            i <= source_output_ports,
            r@ =~= spec_decoder_plan(i as nat).drop_last(),
        decreases source_output_ports - i,
    {
        r.push(
            Connection {
                upstream: Port { direction: PortDirection::Output, component: ComponentKind::Source, index: i },
                downstream: Port { direction: PortDirection::Input, component: ComponentKind::Filter, index: i },
            },
        );
        i = i + 1;
        assert(r@ =~= spec_decoder_plan(i as nat).drop_last());
    }
    r.push(
        Connection {
            upstream: Port { direction: PortDirection::Output, component: ComponentKind::Filter, index: 0 },
            downstream: Port { direction: PortDirection::Input, component: ComponentKind::Sink, index: 0 },
        },
    );
    assert(r@ =~= spec_decoder_plan(source_output_ports as nat));
    r
}

/// The connections of an encoding pipeline: the user source's output to the
/// multiplexer's input, then the multiplexer's output to the sink's input.
pub fn encoder_connection_plan() -> (r: Vec<Connection>)
    ensures
        r@ == seq![
            Connection {
                upstream: Port { direction: PortDirection::Output, component: ComponentKind::Source, index: 0 },
                downstream: Port { direction: PortDirection::Input, component: ComponentKind::Filter, index: 0 },
            },
            Connection {
                upstream: Port { direction: PortDirection::Output, component: ComponentKind::Filter, index: 0 },
                downstream: Port { direction: PortDirection::Input, component: ComponentKind::Sink, index: 0 },
            },
        ],
{
    let mut r: Vec<Connection> = Vec::new();
    r.push(
        Connection {
            upstream: Port { direction: PortDirection::Output, component: ComponentKind::Source, index: 0 },
            downstream: Port { direction: PortDirection::Input, component: ComponentKind::Filter, index: 0 },
        },
    );
    r.push(
        Connection {
            upstream: Port { direction: PortDirection::Output, component: ComponentKind::Filter, index: 0 },
            downstream: Port { direction: PortDirection::Input, component: ComponentKind::Sink, index: 0 },
        },
    );
    assert(r@ =~= seq![
        Connection {
            upstream: Port { direction: PortDirection::Output, component: ComponentKind::Source, index: 0 },
            downstream: Port { direction: PortDirection::Input, component: ComponentKind::Filter, index: 0 },
        },
        Connection {
            upstream: Port { direction: PortDirection::Output, component: ComponentKind::Filter, index: 0 },
            downstream: Port { direction: PortDirection::Input, component: ComponentKind::Sink, index: 0 },
        },
    ]);
    r
}

} // verus!
