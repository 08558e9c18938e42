//! Streams and the properties captured from them.

use vstd::prelude::*;
use crate::clock::{opt_clock_view, ClockClass, ClockClassProperties, ClockClassPropertiesView};
use crate::error::{BtResult, Error};
use crate::trace::Trace;
use crate::util::{opt_bytes, opt_owned_cstr, opt_text, opt_text_eq, spec_opt_text};

verus! {

pub type StreamId = u64;

/// What is captured of a stream.
#[derive(Clone, Eq, Hash, Debug)]
pub struct StreamProperties {
    pub id: StreamId,
    pub name: Option<String>,
    pub clock: Option<ClockClassProperties>,
}

pub ghost struct StreamPropertiesView {
    pub id: StreamId,
    pub name: Option<Seq<char>>,
    pub clock: Option<ClockClassPropertiesView>,
}

impl View for StreamProperties {
    type V = StreamPropertiesView;

    open spec fn view(&self) -> StreamPropertiesView {
        StreamPropertiesView { id: self.id, name: opt_text(self.name), clock: opt_clock_view(self.clock) }
    }
}

impl PartialEq for StreamProperties {
    fn eq(&self, o: &StreamProperties) -> (r: bool) {
        let same_clock = match (&self.clock, &o.clock) {
            (None, None) => true,
            (Some(a), Some(b)) => a.eq(b),
            _ => false,
        };
        self.id == o.id && opt_text_eq(&self.name, &o.name) && same_clock
    }
}

impl vstd::std_specs::cmp::PartialEqSpecImpl for StreamProperties {
    open spec fn obeys_eq_spec() -> bool {
        true
    }

    open spec fn eq_spec(&self, o: &StreamProperties) -> bool {
        self@ == o@
    }
}

/// A stream as the engine describes it, with the trace it belongs to.
#[derive(Clone, Debug)]
pub struct Stream {
    pub id: StreamId,
    pub name: Option<Vec<u8>>,
    /// The default clock class of the stream's class.
    pub clock_class: Option<ClockClass>,
    /// The trace that owns the stream; absent when the engine gave none.
    pub trace: Option<Trace>,
}

impl Stream {
    /// The properties of a stream, or the first error met reading its name
    /// and then its clock class.
    pub open spec fn spec_properties(self) -> Result<StreamPropertiesView, Error> {
        match spec_opt_text(opt_bytes(self.name)) {
            Err(e) => Err(e),
            Ok(name) => match self.clock_class {
                None => Ok(StreamPropertiesView { id: self.id, name, clock: None }),
                Some(c) => match c.spec_properties() {
                    Err(e) => Err(e),
                    Ok(cv) => Ok(StreamPropertiesView { id: self.id, name, clock: Some(cv) }),
                },
            },
        }
    }

    /// Captures the properties of this stream.
    pub fn properties(&self) -> (r: BtResult<StreamProperties>)
        ensures
            match self.spec_properties() {
                Ok(v) => r.is_ok() && r.unwrap()@ == v,
                Err(e) => r == Err::<StreamProperties, Error>(e),
            },
    {
        let name = match opt_owned_cstr(&self.name) {
            Ok(n) => n,
            Err(e) => return Err(e),
        };
        let clock = match &self.clock_class {
            None => None,
            Some(c) => match c.properties() {
                Ok(p) => Some(p),
                Err(e) => return Err(e),
            },
        };
        Ok(StreamProperties { id: self.id, name, clock })
    }

    /// The trace that owns this stream.
    pub fn trace(&self) -> (r: BtResult<&Trace>)
        ensures
            r.is_ok() == self.trace.is_some(),
            r.is_ok() ==> *r.unwrap() == self.trace.unwrap(),
            r.is_err() ==> r == Err::<&Trace, Error>(Error::ResourceBorrow),
    {
        match &self.trace {
            None => Err(Error::ResourceBorrow),
            Some(t) => Ok(t),
        }
    }
}

} // verus!
