//! Events, their classes, and their owned copies.

use vstd::prelude::*;
use crate::clock::{ClockNanoseconds, ClockSnapshot};
use crate::error::{BtResult, Error};
use crate::field::{opt_field_view, Field, OwnedField, OwnedFieldView};
use crate::stream::StreamId;
use crate::util::{opt_bytes, opt_owned_cstr, opt_text, spec_opt_text};

verus! {

pub type EventId = u64;

/// Log level of an event class.
#[derive(Clone, Copy, PartialEq, Eq, Structural, PartialOrd, Ord, Hash, Debug)]
pub enum EventLogLevel {
    Emergency,
    Alert,
    Critical,
    Error,
    Warning,
    Notice,
    Info,
    DebugSystem,
    DebugProgram,
    DebugProcess,
    DebugModule,
    DebugUnit,
    DebugFunction,
    DebugLine,
    Debug,
}

impl EventLogLevel {
    /// The level that an engine log level code stands for, if any: the codes
    /// run from 0 (emergency) to 14 (debug) in declaration order.
    pub open spec fn spec_from_raw(value: u32) -> Option<EventLogLevel> {
        if value == 0 {
            Some(EventLogLevel::Emergency)
        } else if value == 1 {
            Some(EventLogLevel::Alert)
        } else if value == 2 {
            Some(EventLogLevel::Critical)
        } else if value == 3 {
            Some(EventLogLevel::Error)
        } else if value == 4 {
            Some(EventLogLevel::Warning)
        } else if value == 5 {
            Some(EventLogLevel::Notice)
        } else if value == 6 {
            Some(EventLogLevel::Info)
        } else if value == 7 {
            Some(EventLogLevel::DebugSystem)
        } else if value == 8 {
            Some(EventLogLevel::DebugProgram)
        } else if value == 9 {
            Some(EventLogLevel::DebugProcess)
        } else if value == 10 {
            Some(EventLogLevel::DebugModule)
        } else if value == 11 {
            Some(EventLogLevel::DebugUnit)
        } else if value == 12 {
            Some(EventLogLevel::DebugFunction)
        } else if value == 13 {
            Some(EventLogLevel::DebugLine)
        } else if value == 14 {
            Some(EventLogLevel::Debug)
        } else {
            None
        }
    }

    pub fn from_raw(value: u32) -> (r: Option<EventLogLevel>)
        ensures
            r == Self::spec_from_raw(value),
    {
        match value {
            0 => Some(EventLogLevel::Emergency),
            1 => Some(EventLogLevel::Alert),
            2 => Some(EventLogLevel::Critical),
            3 => Some(EventLogLevel::Error),
            4 => Some(EventLogLevel::Warning),
            5 => Some(EventLogLevel::Notice),
            6 => Some(EventLogLevel::Info),
            7 => Some(EventLogLevel::DebugSystem),
            8 => Some(EventLogLevel::DebugProgram),
            9 => Some(EventLogLevel::DebugProcess),
            10 => Some(EventLogLevel::DebugModule),
            11 => Some(EventLogLevel::DebugUnit),
            12 => Some(EventLogLevel::DebugFunction),
            13 => Some(EventLogLevel::DebugLine),
            14 => Some(EventLogLevel::Debug),
            _ => None,
        }
    }
}

/// What is captured of an event's class.
#[derive(Clone, PartialEq, Eq, Hash, Debug)]
pub struct EventClassProperties {
    pub id: EventId,
    pub name: Option<String>,
    pub log_level: Option<EventLogLevel>,
}

pub ghost struct EventClassPropertiesView {
    pub id: EventId,
    pub name: Option<Seq<char>>,
    pub log_level: Option<EventLogLevel>,
}

impl View for EventClassProperties {
    type V = EventClassPropertiesView;

    open spec fn view(&self) -> EventClassPropertiesView {
        EventClassPropertiesView { id: self.id, name: opt_text(self.name), log_level: self.log_level }
    }
}

/// The owned field trees of an event.
#[derive(PartialEq, Eq, Hash, Debug)]
pub struct EventProperties {
    pub payload: Option<OwnedField>,
    pub specific_context: Option<OwnedField>,
    pub common_context: Option<OwnedField>,
}

pub ghost struct EventPropertiesView {
    pub payload: Option<OwnedFieldView>,
    pub specific_context: Option<OwnedFieldView>,
    pub common_context: Option<OwnedFieldView>,
}

impl View for EventProperties {
    type V = EventPropertiesView;

    open spec fn view(&self) -> EventPropertiesView {
        EventPropertiesView {
            payload: opt_field_view(self.payload),
            specific_context: opt_field_view(self.specific_context),
            common_context: opt_field_view(self.common_context),
        }
    }
}

/// An event copied out of the engine: a plain value.
#[derive(PartialEq, Eq, Hash, Debug)]
pub struct OwnedEvent {
    pub stream_id: StreamId,
    pub clock_snapshot: Option<ClockNanoseconds>,
    pub class_properties: EventClassProperties,
    pub properties: EventProperties,
}

pub ghost struct OwnedEventView {
    pub stream_id: StreamId,
    pub clock_snapshot: Option<ClockNanoseconds>,
    pub class_properties: EventClassPropertiesView,
    pub properties: EventPropertiesView,
}

impl View for OwnedEvent {
    type V = OwnedEventView;

    open spec fn view(&self) -> OwnedEventView {
        OwnedEventView {
            stream_id: self.stream_id,
            clock_snapshot: self.clock_snapshot,
            class_properties: self.class_properties@,
            properties: self.properties@,
        }
    }
}

/// An event class as the engine describes it; `log_level` is the engine's
/// code, absent when the class has none.
#[derive(Clone, Debug)]
pub struct EventClass {
    pub id: EventId,
    pub name: Option<Vec<u8>>,
    pub log_level: Option<u32>,
}

/// An event as the engine holds it.
#[derive(Debug)]
pub struct Event {
    pub stream_id: StreamId,
    /// The default clock snapshot of the event's message.
    pub clock_snapshot: Option<ClockSnapshot>,
    /// The event's class; absent when the engine gave none.
    pub class: Option<EventClass>,
    pub payload: Option<Field>,
    pub specific_context: Option<Field>,
    pub common_context: Option<Field>,
}

/// The owned copy of an optional field.
pub open spec fn spec_opt_field(f: Option<Field>) -> Result<Option<OwnedFieldView>, Error> {
    match f {
        None => Ok(None),
        Some(x) => x.spec_to_owned(),
    }
}

fn opt_field_to_owned(f: &Option<Field>) -> (r: BtResult<Option<OwnedField>>)
    ensures
        match spec_opt_field(*f) {
            Ok(v) => r.is_ok() && opt_field_view(r.unwrap()) == v,
            Err(e) => r == Err::<Option<OwnedField>, Error>(e),
        },
{
    match f {
        None => Ok(None),
        Some(x) => x.to_owned(),
    }
}

impl Event {
    pub open spec fn spec_clock_snapshot(self) -> Option<ClockNanoseconds> {
        match self.clock_snapshot {
            None => None,
            Some(c) => c.spec_ns_from_origin(),
        }
    }

    pub open spec fn spec_class_properties(self) -> Result<EventClassPropertiesView, Error> {
        match self.class {
            None => Err(Error::ResourceBorrow),
            Some(c) => match spec_opt_text(opt_bytes(c.name)) {
                Err(e) => Err(e),
                Ok(name) => Ok(
                    EventClassPropertiesView {
                        id: c.id,
                        name,
                        log_level: match c.log_level {
                            None => None,
                            Some(l) => EventLogLevel::spec_from_raw(l),
                        },
                    },
                ),
            },
        }
    }

    pub open spec fn spec_properties(self) -> Result<EventPropertiesView, Error> {
        match spec_opt_field(self.payload) {
            Err(e) => Err(e),
            Ok(payload) => match spec_opt_field(self.specific_context) {
                Err(e) => Err(e),
                Ok(specific_context) => match spec_opt_field(self.common_context) {
                    Err(e) => Err(e),
                    Ok(common_context) => Ok(
                        EventPropertiesView { payload, specific_context, common_context },
                    ),
                },
            },
        }
    }

    /// The owned copy of an event, or the first error met copying its class
    /// and then its payload, specific context and common context.
    pub open spec fn spec_to_owned(self) -> Result<OwnedEventView, Error> {
        match self.spec_class_properties() {
            Err(e) => Err(e),
            Ok(class_properties) => match self.spec_properties() {
                Err(e) => Err(e),
                Ok(properties) => Ok(
                    OwnedEventView {
                        stream_id: self.stream_id,
                        clock_snapshot: self.spec_clock_snapshot(),
                        class_properties,
                        properties,
                    },
                ),
            },
        }
    }

    pub fn stream_id(&self) -> (r: StreamId)
        ensures
            r == self.stream_id,
    {
        self.stream_id
    }

    /// Nanoseconds from the clock's origin of the event's snapshot; absent
    /// without a snapshot or when the conversion overflowed.
    pub fn clock_snapshot(&self) -> (r: Option<ClockNanoseconds>)
        ensures
            r == self.spec_clock_snapshot(),
    {
        match &self.clock_snapshot {
            None => None,
            Some(c) => c.ns_from_origin(),
        }
    }

    pub fn class_properties(&self) -> (r: BtResult<EventClassProperties>)
        ensures
            match self.spec_class_properties() {
                Ok(v) => r.is_ok() && r.unwrap()@ == v,
                Err(e) => r == Err::<EventClassProperties, Error>(e),
            },
    {
        match &self.class {
            None => Err(Error::ResourceBorrow),
            Some(c) => {
                let name = match opt_owned_cstr(&c.name) {
                    Ok(n) => n,
                    Err(e) => return Err(e),
                };
                let log_level = match c.log_level {
                    None => None,
                    Some(l) => EventLogLevel::from_raw(l),
                };
                Ok(EventClassProperties { id: c.id, name, log_level })
            },
        }
    }

    pub fn properties(&self) -> (r: BtResult<EventProperties>)
        ensures
            match self.spec_properties() {
                Ok(v) => r.is_ok() && r.unwrap()@ == v,
                Err(e) => r == Err::<EventProperties, Error>(e),
            },
    {
        let payload = match opt_field_to_owned(&self.payload) {
            Ok(f) => f,
            Err(e) => return Err(e),
        };
        let specific_context = match opt_field_to_owned(&self.specific_context) {
            Ok(f) => f,
            Err(e) => return Err(e),
        };
        let common_context = match opt_field_to_owned(&self.common_context) {
            Ok(f) => f,
            Err(e) => return Err(e),
        };
        Ok(EventProperties { payload, specific_context, common_context })
    }

    pub fn payload(&self) -> (r: BtResult<Option<OwnedField>>)
        ensures
            match spec_opt_field(self.payload) {
                Ok(v) => r.is_ok() && opt_field_view(r.unwrap()) == v,
                Err(e) => r == Err::<Option<OwnedField>, Error>(e),
            },
    {
        opt_field_to_owned(&self.payload)
    }

    pub fn specific_context(&self) -> (r: BtResult<Option<OwnedField>>)
        ensures
            match spec_opt_field(self.specific_context) {
                Ok(v) => r.is_ok() && opt_field_view(r.unwrap()) == v,
                Err(e) => r == Err::<Option<OwnedField>, Error>(e),
            },
    {
        opt_field_to_owned(&self.specific_context)
    }

    pub fn common_context(&self) -> (r: BtResult<Option<OwnedField>>)
        ensures
            match spec_opt_field(self.common_context) {
                Ok(v) => r.is_ok() && opt_field_view(r.unwrap()) == v,
                Err(e) => r == Err::<Option<OwnedField>, Error>(e),
            },
    {
        opt_field_to_owned(&self.common_context)
    }

    /// Copies this event out of the engine.
    pub fn to_owned(&self) -> (r: BtResult<OwnedEvent>)
        ensures
            match self.spec_to_owned() {
                Ok(v) => r.is_ok() && r.unwrap()@ == v,
                Err(e) => r == Err::<OwnedEvent, Error>(e),
            },
    {
        let stream_id = self.stream_id();
        let clock_snapshot = self.clock_snapshot();
        let class_properties = match self.class_properties() {
            Ok(c) => c,
            Err(e) => return Err(e),
        };
        let properties = match self.properties() {
            Ok(p) => p,
            Err(e) => return Err(e),
        };
        Ok(OwnedEvent { stream_id, clock_snapshot, class_properties, properties })
    }
}

} // verus!
