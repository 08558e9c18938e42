//! The proxy sink: a sink component that buffers what it consumes so that
//! ordinary sequential code can pull it.
//!
//! The engine drives the sink through its callbacks (initialize, graph
//! configured, consume, finalize); each callback is a transition of
//! [`ProxyPluginState`]. Between two steps of the graph, the caller reads the
//! captured trace and stream properties and pops events in arrival order.

use vstd::prelude::*;
use crate::error::{BtResult, Error};
use crate::event::{OwnedEvent, OwnedEventView};
use crate::message::{Message, MessageArray, MessageType};
use crate::message_iterator::NextStatus;
use crate::status::{STATUS_AGAIN, STATUS_END, STATUS_ERROR, STATUS_OK};
use crate::stream::{StreamProperties, StreamPropertiesView};
use crate::trace::{Trace, TraceProperties, TracePropertiesView};
use std::collections::VecDeque;

verus! {

/// The sink's names in the engine.
pub struct ProxyPlugin;

impl ProxyPlugin {
    /// Name of the plugin that provides the sink.
    pub fn plugin_name() -> (r: &'static str)
        ensures
            r@ == "proxy"@,
    {
        "proxy"
    }

    /// Name of the sink component class.
    pub fn output_name() -> (r: &'static str)
        ensures
            r@ == "output"@,
    {
        "output"
    }

    /// Name of the sink's node in a graph.
    pub fn graph_node_name() -> (r: &'static str)
        ensures
            r@ == "sink.proxy.output"@,
    {
        "sink.proxy.output"
    }

    /// Name under which the sink's initialize method is registered.
    pub fn init_method_name() -> (r: &'static str)
        ensures
            r@ == "sink_initialize_method"@,
    {
        "sink_initialize_method"
    }

    /// Name under which the sink's finalize method is registered.
    pub fn fini_method_name() -> (r: &'static str)
        ensures
            r@ == "sink_finalize_method"@,
    {
        "sink_finalize_method"
    }

    /// Name under which the sink's graph-configured method is registered.
    pub fn graph_is_configured_method_name() -> (r: &'static str)
        ensures
            r@ == "sink_graph_is_configured_method"@,
    {
        "sink_graph_is_configured_method"
    }
}

/// Engine status returned by the consume callback.
pub type ConsumeSuccessCode = i32;

/// Why a consume step failed.
#[derive(Clone, PartialEq, Eq, Debug)]
pub enum ConsumeError {
    /// The sink has no state.
    NullState,
    /// The sink has no upstream iterator (not configured, or already ended).
    NullIterator,
    /// The upstream iterator failed.
    MessageIterator(Error),
    /// The stream of a stream-beginning message could not be borrowed.
    StreamBorrow(Error),
    /// The event of an event message could not be borrowed.
    EventBorrow(Error),
    /// Capturing properties or copying an event failed.
    Error(Error),
}

/// Where the sink stands in its life.
#[derive(Clone, Copy, PartialEq, Eq, Structural, Debug)]
pub enum SinkPhase {
    /// Created, no input port yet.
    Uninitialized,
    /// Has its one input port.
    Initialized,
    /// Holds its upstream message iterator and consumes from it.
    Configured,
    /// The upstream iterator ended and was released.
    Ended,
    /// Torn down by the graph.
    Finalized,
}

pub ghost struct ProxyStateView {
    pub phase: SinkPhase,
    pub trace: TracePropertiesView,
    /// Captured stream properties, each once, in order of first arrival.
    pub streams: Seq<StreamPropertiesView>,
    /// Buffered events, oldest first.
    pub events: Seq<OwnedEventView>,
    /// Discarded-events notices seen (saturating).
    pub discarded_events: u64,
    /// Discarded-packets notices seen (saturating).
    pub discarded_packets: u64,
}

pub open spec fn stream_views(s: Seq<StreamProperties>) -> Seq<StreamPropertiesView> {
    s.map_values(|p: StreamProperties| p@)
}

pub open spec fn event_views(s: Seq<OwnedEvent>) -> Seq<OwnedEventView> {
    s.map_values(|e: OwnedEvent| e@)
}

/// Set insertion: a stream already captured is not captured again.
pub open spec fn insert_stream(streams: Seq<StreamPropertiesView>, p: StreamPropertiesView) -> Seq<
    StreamPropertiesView,
> {
    if streams.contains(p) {
        streams
    } else {
        streams.push(p)
    }
}

/// A counter after one more notice.
pub open spec fn bump(c: u64) -> u64 {
    if c < u64::MAX {
        (c + 1) as u64
    } else {
        c
    }
}

/// The sink after handling one message of a batch, with the error that
/// stops the batch, if any. A stream beginning captures the stream (set
/// semantics) and then re-captures its trace (last write wins); an event is
/// copied to the tail of the queue; discard notices are counted; any other
/// message is ignored.
pub open spec fn message_step(s: ProxyStateView, m: Message) -> (ProxyStateView, Option<ConsumeError>) {
    match m.msg_type {
        MessageType::StreamBeginning => match m.stream {
            None => (s, Some(ConsumeError::StreamBorrow(Error::ResourceBorrow))),
            Some(st) => match st.spec_properties() {
                Err(e) => (s, Some(ConsumeError::Error(e))),
                Ok(p) => {
                    let s1 = ProxyStateView { streams: insert_stream(s.streams, p), ..s };
                    match st.trace {
                        None => (s1, Some(ConsumeError::Error(Error::ResourceBorrow))),
                        Some(t) => match t.spec_properties() {
                            Err(e) => (s1, Some(ConsumeError::Error(e))),
                            Ok(tp) => (ProxyStateView { trace: tp, ..s1 }, None),
                        },
                    }
                },
            },
        },
        MessageType::Event => match m.event {
            None => (s, Some(ConsumeError::EventBorrow(Error::ResourceBorrow))),
            Some(ev) => match ev.spec_to_owned() {
                Err(e) => (s, Some(ConsumeError::Error(e))),
                Ok(o) => (ProxyStateView { events: s.events.push(o), ..s }, None),
            },
        },
        MessageType::DiscardedEvents => (
            ProxyStateView { discarded_events: bump(s.discarded_events), ..s },
            None,
        ),
        MessageType::DiscardedPackets => (
            ProxyStateView { discarded_packets: bump(s.discarded_packets), ..s },
            None,
        ),
        _ => (s, None),
    }
}

/// The sink after the first `n` messages of a batch, stopping at the first
/// error: what earlier messages did stays done.
pub open spec fn batch_prefix(s: ProxyStateView, msgs: Seq<Message>, n: nat) -> (
    ProxyStateView,
    Option<ConsumeError>,
)
    decreases n,
{
    if n == 0 {
        (s, None)
    } else {
        let (s1, e) = batch_prefix(s, msgs, (n - 1) as nat);
        if e.is_some() {
            (s1, e)
        } else {
            message_step(s1, msgs[n - 1])
        }
    }
}

/// One consume step, given what the upstream iterator returned: a batch is
/// handled message by message; the end of upstream releases the iterator; a
/// try-again changes nothing.
pub open spec fn spec_consume(s: ProxyStateView, next: BtResult<(NextStatus, MessageArray)>) -> (
    ProxyStateView,
    Result<ConsumeSuccessCode, ConsumeError>,
) {
    if s.phase != SinkPhase::Configured {
        (s, Err(ConsumeError::NullIterator))
    } else {
        match next {
            Err(e) => (s, Err(ConsumeError::MessageIterator(e))),
            Ok((NextStatus::Ready, msgs)) => {
                let (s1, e) = batch_prefix(s, msgs@, msgs@.len());
                match e {
                    Some(err) => (s1, Err(err)),
                    None => (s1, Ok(STATUS_OK)),
                }
            },
            Ok((NextStatus::End, _)) => (ProxyStateView { phase: SinkPhase::Ended, ..s }, Ok(STATUS_END)),
            Ok((NextStatus::TryAgain, _)) => (s, Ok(STATUS_AGAIN)),
        }
    }
}

proof fn lemma_batch_prefix_stops(s: ProxyStateView, msgs: Seq<Message>, k: nat, n: nat)
    requires
        k <= n,
        batch_prefix(s, msgs, k).1.is_some(),
    ensures
        batch_prefix(s, msgs, n) == batch_prefix(s, msgs, k),
    decreases n,
{
    if k < n {
        lemma_batch_prefix_stops(s, msgs, k, (n - 1) as nat);
    }
}

/// The state of the proxy sink, shared between the engine's callbacks and
/// the caller.
pub struct ProxyPluginState {
    phase: SinkPhase,
    trace_properties: TraceProperties,
    stream_properties: Vec<StreamProperties>,
    events: VecDeque<OwnedEvent>,
    discarded_events: u64,
    discarded_packets: u64,
}

impl View for ProxyPluginState {
    type V = ProxyStateView;

    closed spec fn view(&self) -> ProxyStateView {
        ProxyStateView {
            phase: self.phase,
            trace: self.trace_properties@,
            streams: stream_views(self.stream_properties@),
            events: event_views(self.events@),
            discarded_events: self.discarded_events,
            discarded_packets: self.discarded_packets,
        }
    }
}

/// Captured streams never repeat.
pub open spec fn streams_distinct(streams: Seq<StreamPropertiesView>) -> bool {
    forall|i: int, j: int| 0 <= i < j < streams.len() ==> streams[i] != streams[j]
}

impl ProxyPluginState {
    pub open spec fn wf(&self) -> bool {
        streams_distinct(self@.streams)
    }

    /// The state of a sink that has not been initialized, with nothing
    /// captured.
    pub open spec fn new_view() -> ProxyStateView {
        ProxyStateView {
            phase: SinkPhase::Uninitialized,
            trace: TracePropertiesView { name: None, uuid: None, env: None },
            streams: Seq::empty(),
            events: Seq::empty(),
            discarded_events: 0,
            discarded_packets: 0,
        }
    }

    /// A sink that has not been initialized, with nothing captured.
    pub fn new() -> (r: ProxyPluginState)
        ensures
            r.wf(),
            r@ == Self::new_view(),
    {
        let r = ProxyPluginState {
            phase: SinkPhase::Uninitialized,
            trace_properties: TraceProperties::default(),
            stream_properties: Vec::new(),
            events: VecDeque::new(),
            discarded_events: 0,
            discarded_packets: 0,
        };
        assert(stream_views(r.stream_properties@) =~= Seq::empty());
        assert(event_views(r.events@) =~= Seq::empty());
        r
    }

    pub fn phase(&self) -> (r: SinkPhase)
        ensures
            r == self@.phase,
    {
        self.phase
    }

    /// The initialize callback, given whether adding the input port
    /// succeeded. Only an uninitialized sink with its port is initialized.
    pub fn initialize(&mut self, port_added: &BtResult<()>) -> (r: i32)
        ensures
            old(self)@.phase == SinkPhase::Uninitialized && port_added.is_ok() ==> r == STATUS_OK
                && final(self)@ == (ProxyStateView { phase: SinkPhase::Initialized, ..old(self)@ }),
            !(old(self)@.phase == SinkPhase::Uninitialized && port_added.is_ok()) ==> r
                == STATUS_ERROR && final(self)@ == old(self)@,
            final(self).wf() == old(self).wf(),
    {
        if self.phase == SinkPhase::Uninitialized && port_added.is_ok() {
            self.phase = SinkPhase::Initialized;
            STATUS_OK
        } else {
            STATUS_ERROR
        }
    }

    /// The graph-configured callback, given whether the upstream iterator
    /// could be created on the input port. Only an initialized sink that got
    /// its iterator is configured.
    pub fn graph_is_configured(&mut self, iterator_created: &BtResult<()>) -> (r: i32)
        ensures
            old(self)@.phase == SinkPhase::Initialized && iterator_created.is_ok() ==> r
                == STATUS_OK && final(self)@ == (ProxyStateView {
                phase: SinkPhase::Configured,
                ..old(self)@
            }),
            !(old(self)@.phase == SinkPhase::Initialized && iterator_created.is_ok()) ==> r
                == STATUS_ERROR && final(self)@ == old(self)@,
            final(self).wf() == old(self).wf(),
    {
        if self.phase == SinkPhase::Initialized && iterator_created.is_ok() {
            self.phase = SinkPhase::Configured;
            STATUS_OK
        } else {
            STATUS_ERROR
        }
    }

    /// Whether the sink holds an upstream iterator to consume from.
    pub fn has_iterator(&self) -> (r: bool)
        ensures
            r == (self@.phase == SinkPhase::Configured),
    {
        self.phase == SinkPhase::Configured
    }

    /// The finalize callback: the sink is torn down; what it buffered stays
    /// readable.
    pub fn finalize(&mut self)
        ensures
            final(self)@ == (ProxyStateView { phase: SinkPhase::Finalized, ..old(self)@ }),
            final(self).wf() == old(self).wf(),
    {
        self.phase = SinkPhase::Finalized;
    }

    fn insert_stream(&mut self, p: StreamProperties)
        requires
            old(self).wf(),
        ensures
            final(self).wf(),
            final(self)@ == (ProxyStateView {
                streams: insert_stream(old(self)@.streams, p@),
                ..old(self)@
            }),
    {
        let mut j: usize = 0;
        while j < self.stream_properties.len()
            invariant
                self == old(self),
                self.wf(),
                j <= self.stream_properties@.len(),
                forall|k: int| 0 <= k < j ==> stream_views(self.stream_properties@)[k] != p@,
            decreases self.stream_properties@.len() - j,
        {
            if self.stream_properties[j].eq(&p) {
                assert(stream_views(self.stream_properties@)[j as int] == p@);
                assert(self@.streams.contains(p@));
                return;
            }
            j = j + 1;
        }
        let ghost before = stream_views(self.stream_properties@);
        assert(!before.contains(p@));
        self.stream_properties.push(p);
        assert(stream_views(self.stream_properties@) =~= before.push(p@));
    }

    fn apply_message(&mut self, msg: &Message) -> (r: Option<ConsumeError>)
        requires
            old(self).wf(),
        ensures
            final(self).wf(),
            (final(self)@, r) == message_step(old(self)@, *msg),
    {
        match msg.get_type() {
            MessageType::StreamBeginning => {
                let stream = match msg.stream_beginning_borrow_stream() {
                    Ok(s) => s,
                    Err(e) => return Some(ConsumeError::StreamBorrow(e)),
                };
                let props = match stream.properties() {
                    Ok(p) => p,
                    Err(e) => return Some(ConsumeError::Error(e)),
                };
                self.insert_stream(props);
                let trace = match stream.trace() {
                    Ok(t) => t,
                    Err(e) => return Some(ConsumeError::Error(e)),
                };
                match trace.properties() {
                    Ok(tp) => {
                        self.trace_properties = tp;
                        None
                    },
                    Err(e) => Some(ConsumeError::Error(e)),
                }
            },
            MessageType::Event => {
                let event = match msg.borrow_event() {
                    Ok(e) => e,
                    Err(e) => return Some(ConsumeError::EventBorrow(e)),
                };
                match event.to_owned() {
                    Ok(o) => {
                        let ghost before = event_views(self.events@);
                        let ghost ov = o@;
                        self.events.push_back(o);
                        assert(event_views(self.events@) =~= before.push(ov));
                        None
                    },
                    Err(e) => Some(ConsumeError::Error(e)),
                }
            },
            MessageType::DiscardedEvents => {
                if self.discarded_events < u64::MAX {
                    self.discarded_events = self.discarded_events + 1;
                }
                None
            },
            MessageType::DiscardedPackets => {
                if self.discarded_packets < u64::MAX {
                    self.discarded_packets = self.discarded_packets + 1;
                }
                None
            },
            _ => None,
        }
    }

    /// The consume callback, given what the upstream iterator returned for
    /// one batch request.
    pub fn consume(&mut self, next: BtResult<(NextStatus, MessageArray)>) -> (r: Result<
        ConsumeSuccessCode,
        ConsumeError,
    >)
        requires
            old(self).wf(),
        ensures
            final(self).wf(),
            (final(self)@, r) == spec_consume(old(self)@, next),
    {
        if self.phase != SinkPhase::Configured {
            return Err(ConsumeError::NullIterator);
        }
        match next {
            Err(e) => Err(ConsumeError::MessageIterator(e)),
            Ok((NextStatus::Ready, msgs)) => {
                let ghost s0 = self@;
                let messages = msgs.as_slice();
                let mut i: usize = 0;
                while i < messages.len()
                    invariant
                        self.wf(),
                        i <= messages@.len(),
                        messages@ == msgs@,
                        batch_prefix(s0, msgs@, i as nat) == (self@, None::<ConsumeError>),
                        s0 == old(self)@,
                        s0.phase == SinkPhase::Configured,
                        next == Ok::<(NextStatus, MessageArray), Error>((NextStatus::Ready, msgs)),
                    decreases messages@.len() - i,
                {
                    match self.apply_message(&messages[i]) {
                        Some(err) => {
                            proof {
                                assert(batch_prefix(s0, msgs@, (i + 1) as nat) == (
                                    self@,
                                    Some(err),
                                ));
                                lemma_batch_prefix_stops(
                                    s0,
                                    msgs@,
                                    (i + 1) as nat,
                                    msgs@.len(),
                                );
                            }
                            return Err(err);
                        },
                        None => {},
                    }
                    i = i + 1;
                }
                Ok(STATUS_OK)
            },
            Ok((NextStatus::End, _)) => {
                self.phase = SinkPhase::Ended;
                Ok(STATUS_END)
            },
            Ok((NextStatus::TryAgain, _)) => Ok(STATUS_AGAIN),
        }
    }

    /// The trace properties captured last.
    pub fn trace_properties(&self) -> (r: &TraceProperties)
        ensures
            r@ == self@.trace,
    {
        &self.trace_properties
    }

    /// The captured stream properties, each once, in order of first arrival.
    pub fn stream_properties(&self) -> (r: &Vec<StreamProperties>)
        ensures
            stream_views(r@) == self@.streams,
    {
        &self.stream_properties
    }

    /// The buffered events, oldest first.
    pub fn events(&self) -> (r: &VecDeque<OwnedEvent>)
        ensures
            event_views(r@) == self@.events,
    {
        &self.events
    }

    /// Removes and returns the oldest buffered event.
    pub fn pop_event(&mut self) -> (r: Option<OwnedEvent>)
        requires
            old(self).wf(),
        ensures
            final(self).wf(),
            old(self)@.events.len() == 0 ==> r.is_none() && final(self)@ == old(self)@,
            old(self)@.events.len() > 0 ==> r.is_some() && r.unwrap()@ == old(self)@.events[0]
                && final(self)@ == (ProxyStateView {
                events: old(self)@.events.drop_first(),
                ..old(self)@
            }),
    {
        let ghost before = self.events@;
        let r = self.events.pop_front();
        proof {
            if before.len() > 0 {
                assert(event_views(self.events@) =~= event_views(before).drop_first());
            }
        }
        r
    }

    /// Removes and returns every buffered event, oldest first.
    pub fn drain_events(&mut self) -> (r: Vec<OwnedEvent>)
        requires
            old(self).wf(),
        ensures
            final(self).wf(),
            event_views(r@) == old(self)@.events,
            final(self)@ == (ProxyStateView { events: Seq::empty(), ..old(self)@ }),
    {
        let mut out: Vec<OwnedEvent> = Vec::new();
        let ghost all = self@.events;
        assert(event_views(out@) =~= Seq::empty());
        while self.events.len() > 0
            invariant
                self.wf(),
                self@ == (ProxyStateView { events: self@.events, ..old(self)@ }),
                event_views(out@) + self@.events == all,
            decreases self.events@.len(),
        {
            let ghost before = self@.events;
            match self.pop_event() {
                Some(e) => {
                    out.push(e);
                    assert(event_views(out@) + self@.events =~= all);
                },
                None => {},
            }
        }
        assert(self@.events =~= Seq::empty());
        assert(event_views(out@) =~= all);
        out
    }

    /// Number of discarded-events notices seen.
    pub fn discarded_events(&self) -> (r: u64)
        ensures
            r == self@.discarded_events,
    {
        self.discarded_events
    }

    /// Number of discarded-packets notices seen.
    pub fn discarded_packets(&self) -> (r: u64)
        ensures
            r == self@.discarded_packets,
    {
        self.discarded_packets
    }
}

impl Default for ProxyPluginState {
    fn default() -> (r: ProxyPluginState)
        ensures
            r.wf(),
            r@ == ProxyPluginState::new_view(),
    {
        ProxyPluginState::new()
    }
}

/// The engine status that the consume callback returns for a consume result.
pub fn consume_status(r: &Result<ConsumeSuccessCode, ConsumeError>) -> (s: i32)
    ensures
        r.is_ok() ==> s == r.unwrap(),
        r.is_err() ==> s == STATUS_ERROR,
{
    match r {
        Ok(code) => *code,
        Err(_) => STATUS_ERROR,
    }
}

/// The events that the first `n` messages of a batch add to the queue,
/// when none of them fails.
pub open spec fn batch_events(msgs: Seq<Message>, n: nat) -> Seq<OwnedEventView>
    decreases n,
{
    if n == 0 {
        Seq::empty()
    } else {
        let m = msgs[n - 1];
        let earlier = batch_events(msgs, (n - 1) as nat);
        if m.msg_type == MessageType::Event && m.event.is_some()
            && m.event.unwrap().spec_to_owned().is_ok() {
            earlier.push(m.event.unwrap().spec_to_owned().unwrap())
        } else {
            earlier
        }
    }
}

proof fn lemma_batch_appends(s: ProxyStateView, msgs: Seq<Message>, n: nat)
    requires
        batch_prefix(s, msgs, n).1.is_none(),
    ensures
        batch_prefix(s, msgs, n).0.events == s.events + batch_events(msgs, n),
    decreases n,
{
    if n == 0 {
        assert(s.events + Seq::<OwnedEventView>::empty() =~= s.events);
    } else {
        let (s1, e) = batch_prefix(s, msgs, (n - 1) as nat);
        assert(e.is_none());
        lemma_batch_appends(s, msgs, (n - 1) as nat);
        let m = msgs[n - 1];
        if m.msg_type == MessageType::Event && m.event.is_some()
            && m.event.unwrap().spec_to_owned().is_ok() {
            let o = m.event.unwrap().spec_to_owned().unwrap();
            assert(s1.events.push(o) =~= s.events + batch_events(msgs, (n - 1) as nat).push(o));
        }
    }
}

/// The sink after a run of consume steps, each given what the upstream
/// iterator returned, and whether every step succeeded (it stops at the
/// first failure).
pub open spec fn consume_all(s: ProxyStateView, steps: Seq<BtResult<(NextStatus, MessageArray)>>) -> (
    ProxyStateView,
    bool,
)
    decreases steps.len(),
{
    if steps.len() == 0 {
        (s, true)
    } else {
        let (s1, ok) = consume_all(s, steps.drop_last());
        if !ok {
            (s1, false)
        } else {
            let (s2, r) = spec_consume(s1, steps.last());
            (s2, r.is_ok())
        }
    }
}

/// The events that a run of consume steps adds, step after step: each batch
/// in its own order; try-again and end steps add none.
pub open spec fn steps_events(steps: Seq<BtResult<(NextStatus, MessageArray)>>) -> Seq<
    OwnedEventView,
>
    decreases steps.len(),
{
    if steps.len() == 0 {
        Seq::empty()
    } else {
        steps_events(steps.drop_last()) + match steps.last() {
            Ok((NextStatus::Ready, b)) => batch_events(b@, b@.len()),
            _ => Seq::empty(),
        }
    }
}

/// Events come out of the queue in the order they arrived, across any number
/// of successful consume steps, with try-again steps anywhere between them:
/// the queue holds what it held, then each batch's events in batch order.
pub proof fn lemma_events_in_arrival_order(
    s: ProxyStateView,
    steps: Seq<BtResult<(NextStatus, MessageArray)>>,
)
    requires
        consume_all(s, steps).1,
    ensures
        consume_all(s, steps).0.events == s.events + steps_events(steps),
    decreases steps.len(),
{
    if steps.len() == 0 {
        assert(s.events + Seq::<OwnedEventView>::empty() =~= s.events);
    } else {
        let front = steps.drop_last();
        lemma_events_in_arrival_order(s, front);
        let s1 = consume_all(s, front).0;
        match steps.last() {
            Ok((NextStatus::Ready, b)) => {
                lemma_batch_appends(s1, b@, b@.len());
                assert(s1.events + batch_events(b@, b@.len()) =~= s.events + steps_events(steps));
            },
            _ => {
                assert(s1.events =~= s.events + steps_events(steps));
            },
        }
    }
}

/// Re-capturing a trace's properties changes nothing: when the captured
/// trace properties are those of trace `t`, a successful consume step whose
/// stream beginnings all belong to `t` leaves them as they were.
pub proof fn lemma_trace_capture_stable(s: ProxyStateView, t: Trace, b: MessageArray)
    requires
        t.spec_properties() == Ok::<TracePropertiesView, Error>(s.trace),
        forall|i: int|
            0 <= i < b@.len() && (#[trigger] b@[i]).msg_type == MessageType::StreamBeginning
                && b@[i].stream.is_some() ==> b@[i].stream.unwrap().trace == Some(t),
        spec_consume(s, Ok((NextStatus::Ready, b))).1.is_ok(),
    ensures
        spec_consume(s, Ok((NextStatus::Ready, b))).0.trace == s.trace,
{
    lemma_batch_keeps_trace(s, t, b@, b@.len());
}

proof fn lemma_batch_keeps_trace(s: ProxyStateView, t: Trace, msgs: Seq<Message>, n: nat)
    requires
        n <= msgs.len(),
        t.spec_properties() == Ok::<TracePropertiesView, Error>(s.trace),
        forall|i: int|
            0 <= i < msgs.len() && (#[trigger] msgs[i]).msg_type == MessageType::StreamBeginning
                && msgs[i].stream.is_some() ==> msgs[i].stream.unwrap().trace == Some(t),
        batch_prefix(s, msgs, n).1.is_none(),
    ensures
        batch_prefix(s, msgs, n).0.trace == s.trace,
    decreases n,
{
    if n > 0 {
        let (s1, e) = batch_prefix(s, msgs, (n - 1) as nat);
        assert(e.is_none());
        lemma_batch_keeps_trace(s, t, msgs, (n - 1) as nat);
        let m = msgs[n - 1];
        assert(m == msgs[(n - 1) as int]);
    }
}

/// Capturing trace properties is idempotent: after two stream beginnings of
/// the same trace, the captured properties are those of that trace, the same
/// as after the first one alone.
pub proof fn lemma_trace_capture_idempotent(s: ProxyStateView, m1: Message, m2: Message)
    requires
        m1.msg_type == MessageType::StreamBeginning,
        m2.msg_type == MessageType::StreamBeginning,
        m1.stream.is_some(),
        m2.stream.is_some(),
        m1.stream.unwrap().trace == m2.stream.unwrap().trace,
        message_step(s, m1).1.is_none(),
        message_step(message_step(s, m1).0, m2).1.is_none(),
    ensures
        ({
            let s1 = message_step(s, m1).0;
            let s2 = message_step(s1, m2).0;
            &&& s2.trace == s1.trace
            &&& s1.trace == m1.stream.unwrap().trace.unwrap().spec_properties().unwrap()
        }),
{
}

/// Capturing streams has set semantics: a stream captured again leaves the
/// captured streams unchanged, and a new one is added once at the end.
pub proof fn lemma_stream_capture_is_set_insert(s: ProxyStateView, m: Message)
    requires
        m.msg_type == MessageType::StreamBeginning,
        m.stream.is_some(),
        m.stream.unwrap().spec_properties().is_ok(),
    ensures
        ({
            let p = m.stream.unwrap().spec_properties().unwrap();
            let s1 = message_step(s, m).0;
            &&& s.streams.contains(p) ==> s1.streams == s.streams
            &&& !s.streams.contains(p) ==> s1.streams == s.streams.push(p)
            &&& s1.streams.contains(p)
            &&& s1.events == s.events
        }),
{
    let p = m.stream.unwrap().spec_properties().unwrap();
    if !s.streams.contains(p) {
        assert(s.streams.push(p)[s.streams.len() as int] == p);
    }
}

} // verus!
