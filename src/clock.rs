//! Clock classes and clock snapshots.

use vstd::prelude::*;
use crate::error::{BtResult, Error};
use crate::util::{
    opt_bytes, opt_owned_cstr, opt_text, opt_text_eq, opt_uuid, spec_opt_text, spec_opt_uuid,
};

verus! {

pub type ClockCycles = u64;

pub type ClockNanoseconds = i64;

/// An immutable snapshot of what a clock class says.
#[derive(Clone, Eq, Hash, Debug)]
pub struct ClockClassProperties {
    pub frequency: u64,
    pub offset_seconds: i64,
    pub offset_cycles: ClockCycles,
    pub precision: ClockCycles,
    /// Whether the origin of the clock class is the Unix epoch.
    pub unix_epoch_origin: bool,
    pub name: Option<String>,
    pub description: Option<String>,
    /// The clock class's UUID as a 128-bit number, most significant byte
    /// first.
    pub uuid: Option<u128>,
}

pub ghost struct ClockClassPropertiesView {
    pub frequency: u64,
    pub offset_seconds: i64,
    pub offset_cycles: u64,
    pub precision: u64,
    pub unix_epoch_origin: bool,
    pub name: Option<Seq<char>>,
    pub description: Option<Seq<char>>,
    pub uuid: Option<u128>,
}

impl View for ClockClassProperties {
    type V = ClockClassPropertiesView;

    open spec fn view(&self) -> ClockClassPropertiesView {
        ClockClassPropertiesView {
            frequency: self.frequency,
            offset_seconds: self.offset_seconds,
            offset_cycles: self.offset_cycles,
            precision: self.precision,
            unix_epoch_origin: self.unix_epoch_origin,
            name: opt_text(self.name),
            description: opt_text(self.description),
            uuid: self.uuid,
        }
    }
}

impl PartialEq for ClockClassProperties {
    fn eq(&self, o: &ClockClassProperties) -> (r: bool) {
        self.frequency == o.frequency && self.offset_seconds == o.offset_seconds
            && self.offset_cycles == o.offset_cycles && self.precision == o.precision
            && self.unix_epoch_origin == o.unix_epoch_origin && opt_text_eq(&self.name, &o.name)
            && opt_text_eq(&self.description, &o.description) && self.uuid == o.uuid
    }
}

impl vstd::std_specs::cmp::PartialEqSpecImpl for ClockClassProperties {
    open spec fn obeys_eq_spec() -> bool {
        true
    }

    open spec fn eq_spec(&self, o: &ClockClassProperties) -> bool {
        self@ == o@
    }
}

/// The properties of an optional clock class.
pub open spec fn opt_clock_view(c: Option<ClockClassProperties>) -> Option<ClockClassPropertiesView> {
    match c {
        None => None,
        Some(p) => Some(p@),
    }
}

/// A clock class as the engine describes it; strings and the UUID are the
/// engine's raw bytes.
#[derive(Clone, Debug)]
pub struct ClockClass {
    pub frequency: u64,
    pub offset_seconds: i64,
    pub offset_cycles: u64,
    pub precision: u64,
    pub origin_is_unix_epoch: bool,
    pub name: Option<Vec<u8>>,
    pub description: Option<Vec<u8>>,
    pub uuid: Option<Vec<u8>>,
}

impl ClockClass {
    /// The snapshot of a clock class, or the first error met reading its
    /// name, description and UUID, in that order.
    pub open spec fn spec_properties(self) -> Result<ClockClassPropertiesView, Error> {
        match spec_opt_text(opt_bytes(self.name)) {
            Err(e) => Err(e),
            Ok(name) => match spec_opt_text(opt_bytes(self.description)) {
                Err(e) => Err(e),
                Ok(description) => match spec_opt_uuid(opt_bytes(self.uuid)) {
                    Err(e) => Err(e),
                    Ok(uuid) => Ok(
                        ClockClassPropertiesView {
                            frequency: self.frequency,
                            offset_seconds: self.offset_seconds,
                            offset_cycles: self.offset_cycles,
                            precision: self.precision,
                            unix_epoch_origin: self.origin_is_unix_epoch,
                            name,
                            description,
                            uuid,
                        },
                    ),
                },
            },
        }
    }

    /// Takes a snapshot of this clock class.
    pub fn properties(&self) -> (r: BtResult<ClockClassProperties>)
        ensures
            match self.spec_properties() {
                Ok(v) => r.is_ok() && r.unwrap()@ == v,
                Err(e) => r == Err::<ClockClassProperties, Error>(e),
            },
    {
        let name = match opt_owned_cstr(&self.name) {
            Ok(n) => n,
            Err(e) => return Err(e),
        };
        let description = match opt_owned_cstr(&self.description) {
            Ok(d) => d,
            Err(e) => return Err(e),
        };
        let uuid = match opt_uuid(&self.uuid) {
            Ok(u) => u,
            Err(e) => return Err(e),
        };
        Ok(
            ClockClassProperties {
                frequency: self.frequency,
                offset_seconds: self.offset_seconds,
                offset_cycles: self.offset_cycles,
                precision: self.precision,
                unix_epoch_origin: self.origin_is_unix_epoch,
                name,
                description,
                uuid,
            },
        )
    }
}

/// A snapshot of the value of a stream clock.
#[derive(Clone, Copy, PartialEq, Eq, Structural, PartialOrd, Ord, Hash, Debug)]
pub struct ClockSnapshot {
    /// Value in clock cycles.
    pub(crate) cycles: ClockCycles,
    /// Nanoseconds from the clock class's origin, absent when the conversion
    /// overflowed.
    pub(crate) ns_from_origin: Option<ClockNanoseconds>,
}

impl ClockSnapshot {
    pub closed spec fn spec_cycles(self) -> ClockCycles {
        self.cycles
    }

    pub closed spec fn spec_ns_from_origin(self) -> Option<ClockNanoseconds> {
        self.ns_from_origin
    }

    /// A snapshot of `cycles` cycles, `ns_from_origin` nanoseconds from the
    /// clock's origin (absent when that conversion overflowed).
    pub fn new(cycles: ClockCycles, ns_from_origin: Option<ClockNanoseconds>) -> (r: ClockSnapshot)
        ensures
            r.spec_cycles() == cycles,
            r.spec_ns_from_origin() == ns_from_origin,
    {
        ClockSnapshot { cycles, ns_from_origin }
    }

    /// The value, in clock cycles, of the snapshot.
    pub fn cycles(&self) -> (r: ClockCycles)
        ensures
            r == self.spec_cycles(),
    {
        self.cycles
    }

    /// The value of the snapshot in nanoseconds from the origin of its clock
    /// class; `None` if that computation overflowed.
    pub fn ns_from_origin(&self) -> (r: Option<ClockNanoseconds>)
        ensures
            r == self.spec_ns_from_origin(),
    {
        self.ns_from_origin
    }
}

} // verus!
