//! Pulling events, one at a time, out of a graph that pushes them into a
//! proxy sink.
//!
//! The engine's graph is stepped by the embedding code; this state decides
//! when a step is needed and what the caller gets.

use vstd::prelude::*;
use crate::error::{BtResult, Error};
use crate::event::OwnedEvent;
use crate::graph::{spec_run_once, Graph, RunStatus};
use crate::proxy_plugin::{ProxyPluginState, ProxyStateView};
use crate::stream::StreamProperties;
use crate::trace::TraceProperties;

verus! {

/// What to do to get the next event.
pub enum PullStep {
    /// A buffered event.
    Event(OwnedEvent),
    /// Nothing is buffered: step the graph, then call `after_run`.
    RunGraph,
    /// The graph ended and nothing is buffered: there are no more events.
    Finished,
}

/// Iteration state over the events of a decoding pipeline: the graph's run
/// state, the status of its last step, and the proxy sink's buffers.
pub struct CtfIterator {
    graph: Graph,
    last_run_status: RunStatus,
    proxy_state: ProxyPluginState,
}

impl CtfIterator {
    pub closed spec fn spec_proxy(&self) -> ProxyPluginState {
        self.proxy_state
    }

    pub closed spec fn spec_last_run_status(&self) -> RunStatus {
        self.last_run_status
    }

    pub closed spec fn spec_ended(&self) -> bool {
        self.graph.spec_ended()
    }

    pub open spec fn wf(&self) -> bool {
        &&& self.spec_proxy().wf()
        &&& (self.spec_last_run_status() == RunStatus::End <==> self.spec_ended())
    }

    /// A pipeline that has not run yet, around a fresh proxy sink.
    pub fn new() -> (r: CtfIterator)
        ensures
            r.wf(),
            r.spec_proxy()@ == ProxyPluginState::new_view(),
            r.spec_last_run_status() == RunStatus::Progress,
    {
        CtfIterator {
            graph: Graph::new(),
            last_run_status: RunStatus::Progress,
            proxy_state: ProxyPluginState::new(),
        }
    }

    /// The proxy sink's state, for the engine's callbacks.
    pub fn proxy_state_mut(&mut self) -> (r: &mut ProxyPluginState)
        ensures
            *r == old(self).spec_proxy(),
            final(self).spec_proxy() == *final(r),
            final(self).spec_last_run_status() == old(self).spec_last_run_status(),
            final(self).spec_ended() == old(self).spec_ended(),
    {
        &mut self.proxy_state
    }

    /// Records one step of the graph, given the engine's status for it.
    pub fn record_run(&mut self, engine_code: i32) -> (r: BtResult<RunStatus>)
        requires
            old(self).wf(),
        ensures
            final(self).wf(),
            final(self).spec_proxy() == old(self).spec_proxy(),
            r == spec_run_once(old(self).spec_ended(), engine_code).1,
            final(self).spec_ended() == spec_run_once(old(self).spec_ended(), engine_code).0,
            r.is_ok() ==> final(self).spec_last_run_status() == r.unwrap(),
            r.is_err() ==> final(self).spec_last_run_status() == old(self).spec_last_run_status(),
    {
        let r = self.graph.run_once(engine_code);
        if let Ok(s) = r {
            self.last_run_status = s;
        }
        r
    }

    /// The next thing to do for the next event: hand out the oldest buffered
    /// event, else step the graph unless it ended.
    pub fn next_step(&mut self) -> (r: PullStep)
        requires
            old(self).wf(),
        ensures
            final(self).wf(),
            final(self).spec_last_run_status() == old(self).spec_last_run_status(),
            final(self).spec_ended() == old(self).spec_ended(),
            old(self).spec_proxy()@.events.len() > 0 ==> r is Event && r->Event_0@ == old(
                self,
            ).spec_proxy()@.events[0] && final(self).spec_proxy()@ == (ProxyStateView {
                events: old(self).spec_proxy()@.events.drop_first(),
                ..old(self).spec_proxy()@
            }),
            old(self).spec_proxy()@.events.len() == 0 ==> final(self).spec_proxy()@ == old(
                self,
            ).spec_proxy()@ && (r is Finished <==> old(self).spec_last_run_status()
                == RunStatus::End) && (r is RunGraph <==> old(self).spec_last_run_status()
                != RunStatus::End),
    {
        match self.proxy_state.pop_event() {
            Some(e) => PullStep::Event(e),
            None => {
                if self.last_run_status == RunStatus::End {
                    PullStep::Finished
                } else {
                    PullStep::RunGraph
                }
            },
        }
    }

    /// After the graph was stepped for want of events: a failed step is
    /// reported, otherwise the oldest event the step buffered, if any.
    pub fn after_run(&mut self, engine_code: i32) -> (r: Option<BtResult<OwnedEvent>>)
        requires
            old(self).wf(),
        ensures
            final(self).wf(),
            final(self).spec_ended() == spec_run_once(old(self).spec_ended(), engine_code).0,
            spec_run_once(old(self).spec_ended(), engine_code).1.is_err() ==> r == Some(
                Err::<OwnedEvent, Error>(spec_run_once(old(self).spec_ended(), engine_code).1->Err_0),
            ) && final(self).spec_proxy() == old(self).spec_proxy()
                && final(self).spec_last_run_status() == old(self).spec_last_run_status(),
            spec_run_once(old(self).spec_ended(), engine_code).1.is_ok() ==> {
                &&& final(self).spec_last_run_status() == spec_run_once(
                    old(self).spec_ended(),
                    engine_code,
                ).1->Ok_0
                &&& old(self).spec_proxy()@.events.len() == 0 ==> r.is_none()
                    && final(self).spec_proxy()@ == old(self).spec_proxy()@
                &&& old(self).spec_proxy()@.events.len() > 0 ==> r.is_some() && r.unwrap().is_ok()
                    && r.unwrap().unwrap()@ == old(self).spec_proxy()@.events[0]
                    && final(self).spec_proxy()@ == (ProxyStateView {
                    events: old(self).spec_proxy()@.events.drop_first(),
                    ..old(self).spec_proxy()@
                })
            },
    {
        match self.record_run(engine_code) {
            Err(e) => Some(Err(e)),
            Ok(_) => match self.proxy_state.pop_event() {
                Some(e) => Some(Ok(e)),
                None => None,
            },
        }
    }

    pub fn last_run_status(&self) -> (r: RunStatus)
        ensures
            r == self.spec_last_run_status(),
    {
        self.last_run_status
    }

    pub fn trace_properties(&self) -> (r: &TraceProperties)
        ensures
            r@ == self.spec_proxy()@.trace,
    {
        self.proxy_state.trace_properties()
    }

    pub fn stream_properties(&self) -> (r: &Vec<StreamProperties>)
        ensures
            crate::proxy_plugin::stream_views(r@) == self.spec_proxy()@.streams,
    {
        self.proxy_state.stream_properties()
    }
}

} // verus!
