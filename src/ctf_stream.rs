//! A live trace stream: a graph over a remote session whose steps the caller
//! drives, and whose events it drains in chunks.

use vstd::prelude::*;
use crate::error::{BtResult, Error};
use crate::event::OwnedEvent;
use crate::graph::{spec_run_once, Graph, RunStatus};
use crate::proxy_plugin::{event_views, stream_views, ProxyPluginState, ProxyStateView};
use crate::stream::StreamProperties;
use crate::trace::TraceProperties;

verus! {

/// State of a live stream: the graph's run state, whether the session's
/// metadata has arrived, and the proxy sink's buffers.
pub struct CtfStream {
    graph: Graph,
    metadata_recvd: bool,
    proxy_state: ProxyPluginState,
}

impl CtfStream {
    pub closed spec fn spec_proxy(&self) -> ProxyPluginState {
        self.proxy_state
    }

    pub closed spec fn spec_has_metadata(&self) -> bool {
        self.metadata_recvd
    }

    pub closed spec fn spec_ended(&self) -> bool {
        self.graph.spec_ended()
    }

    pub open spec fn wf(&self) -> bool {
        self.spec_proxy().wf()
    }

    /// A stream whose graph has not run, with no metadata yet.
    pub fn new() -> (r: CtfStream)
        ensures
            r.wf(),
            !r.spec_has_metadata(),
            !r.spec_ended(),
            r.spec_proxy()@ == ProxyPluginState::new_view(),
    {
        CtfStream { graph: Graph::new(), metadata_recvd: false, proxy_state: ProxyPluginState::new() }
    }

    /// The proxy sink's state, for the engine's callbacks.
    pub fn proxy_state_mut(&mut self) -> (r: &mut ProxyPluginState)
        ensures
            *r == old(self).spec_proxy(),
            final(self).spec_proxy() == *final(r),
            final(self).spec_has_metadata() == old(self).spec_has_metadata(),
            final(self).spec_ended() == old(self).spec_ended(),
    {
        &mut self.proxy_state
    }

    /// Records one step of the graph, given the engine's status for it. The
    /// first step that makes progress means the session handshake is done
    /// and the metadata arrived.
    pub fn update(&mut self, engine_code: i32) -> (r: BtResult<RunStatus>)
        ensures
            r == spec_run_once(old(self).spec_ended(), engine_code).1,
            final(self).spec_ended() == spec_run_once(old(self).spec_ended(), engine_code).0,
            final(self).spec_has_metadata() == (old(self).spec_has_metadata() || r == Ok::<
                RunStatus,
                Error,
            >(RunStatus::Progress)),
            final(self).spec_proxy() == old(self).spec_proxy(),
    {
        let r = self.graph.run_once(engine_code);
        if let Ok(RunStatus::Progress) = r {
            self.metadata_recvd = true;
        }
        r
    }

    /// Whether a step reported `End`; the engine need not be stepped any
    /// more.
    pub fn is_ended(&self) -> (r: bool)
        ensures
            r == self.spec_ended(),
    {
        self.graph.is_ended()
    }

    /// Whether the session's metadata has arrived.
    pub fn has_metadata(&self) -> (r: bool)
        ensures
            r == self.spec_has_metadata(),
    {
        self.metadata_recvd
    }

    pub fn trace_properties(&self) -> (r: &TraceProperties)
        ensures
            r@ == self.spec_proxy()@.trace,
    {
        self.proxy_state.trace_properties()
    }

    pub fn stream_properties(&self) -> (r: &Vec<StreamProperties>)
        ensures
            stream_views(r@) == self.spec_proxy()@.streams,
    {
        self.proxy_state.stream_properties()
    }

    /// Drains the events buffered so far, oldest first.
    pub fn events_chunk(&mut self) -> (r: Vec<OwnedEvent>)
        requires
            old(self).wf(),
        ensures
            final(self).wf(),
            event_views(r@) == old(self).spec_proxy()@.events,
            final(self).spec_proxy()@ == (ProxyStateView {
                events: Seq::empty(),
                ..old(self).spec_proxy()@
            }),
            final(self).spec_has_metadata() == old(self).spec_has_metadata(),
            final(self).spec_ended() == old(self).spec_ended(),
    {
        self.proxy_state.drain_events()
    }
}

} // verus!
