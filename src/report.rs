//! Report-only handling of device errors.
//!
//! A disconnected device is reported once per port and otherwise treated as
//! "no value this tick"; a device of the wrong type on a port is a wiring
//! error that must not be masked.

use std::collections::HashSet;
use vstd::prelude::*;

verus! {

/// A device error on a smart port.
#[derive(Debug, Clone, Copy, PartialEq, Eq, Structural)]
pub enum PortFault {
    /// No device is plugged into the port.
    Disconnected { port: u8 },
    /// A device of another type is plugged into the port.
    IncorrectDevice { port: u8 },
}

/// Turns a fallible reading into an optional value, reporting the failure
/// instead of propagating it.
pub trait UnwrapExpectReportExt<T>: Sized {
    /// The value that reporting yields.
    spec fn reported_value(&self) -> Option<T>;

    /// Whether this is a configuration error, which must not be reported
    /// away.
    spec fn is_fatal(&self) -> bool;

    /// The value, or `None` after reporting the failure.
    fn unwrap_report(self) -> (r: Option<T>)
        requires
            !self.is_fatal(),
        ensures
            r == self.reported_value(),
    ;

    /// The value, or `None` after reporting the failure with `msg`.
    fn expect_report(self, msg: &str) -> (r: Option<T>)
        requires
            !self.is_fatal(),
        ensures
            r == self.reported_value(),
    ;
}

impl<T> UnwrapExpectReportExt<T> for Option<T> {
    open spec fn reported_value(&self) -> Option<T> {
        *self
    }

    open spec fn is_fatal(&self) -> bool {
        false
    }

    fn unwrap_report(self) -> (r: Option<T>) {
        self.expect_report("called `unwrap_report` on a `None` value")
    }

    fn expect_report(self, _msg: &str) -> (r: Option<T>) {
        self
    }
}

impl<T> UnwrapExpectReportExt<T> for Result<T, PortFault> {
    open spec fn reported_value(&self) -> Option<T> {
        match self {
            Ok(v) => Some(*v),
            Err(_) => None,
        }
    }

    open spec fn is_fatal(&self) -> bool {
        *self matches Err(PortFault::IncorrectDevice { .. })
    }

    fn unwrap_report(self) -> (r: Option<T>) {
        self.expect_report("called `unwrap_report` on a `Err(PortError)` value")
    }

    fn expect_report(self, _msg: &str) -> (r: Option<T>) {
        match self {
            Ok(v) => Some(v),
            Err(_) => None,
        }
    }
}

/// The registry after noting each fault of `faults` in turn, and the ports
/// whose disconnect was seen for the first time, in order.
pub open spec fn note_all(reg: Set<u8>, faults: Seq<PortFault>) -> (Set<u8>, Seq<u8>)
    decreases faults.len(),
{
    if faults.len() == 0 {
        (reg, Seq::empty())
    } else {
        let (r, logged) = note_all(reg, faults.drop_last());
        match faults.last() {
            PortFault::Disconnected { port } => if r.contains(port) {
                (r, logged)
            } else {
                (r.insert(port), logged.push(port))
            },
            PortFault::IncorrectDevice { .. } => (r, logged),
        }
    }
}

/// The ports on which a disconnect has already been reported.
pub struct DisconnectRegistry {
    ports: HashSet<u8>,
}

impl View for DisconnectRegistry {
    type V = Set<u8>;

    closed spec fn view(&self) -> Set<u8> {
        self.ports@
    }
}

impl DisconnectRegistry {
    /// A registry in which nothing has been reported.
    pub fn new() -> (r: DisconnectRegistry)
        ensures
            r@ == Set::<u8>::empty(),
    {
        DisconnectRegistry { ports: HashSet::new() }
    }

    /// Records a disconnect on `port`; returns whether it is the first one
    /// there, that is, whether it should be reported.
    pub fn note_disconnect(&mut self, port: u8) -> (first: bool)
        ensures
            first == !old(self)@.contains(port),
            final(self)@ == old(self)@.insert(port),
    {
        broadcast use vstd::std_specs::hash::group_hash_axioms;

        self.ports.insert(port)
    }

    /// Notes each of the port faults of a motor group in turn; returns the
    /// ports whose disconnect is seen for the first time, in order, which
    /// are the ones to report. A wrong device type is a configuration error
    /// and is not reported away.
    pub fn note_faults(&mut self, faults: &Vec<PortFault>) -> (logged: Vec<u8>)
        requires
            forall|i: int| 0 <= i < faults@.len() ==> !(faults@[i] is IncorrectDevice),
        ensures
            final(self)@ == note_all(old(self)@, faults@).0,
            logged@ == note_all(old(self)@, faults@).1,
    {
        broadcast use vstd::std_specs::hash::group_hash_axioms;

        let mut logged: Vec<u8> = Vec::new();
        let mut i: usize = 0;
        while i < faults.len()
            invariant
                0 <= i <= faults@.len(),
                self@ == note_all(old(self)@, faults@.take(i as int)).0,
                logged@ == note_all(old(self)@, faults@.take(i as int)).1,
            decreases faults@.len() - i,
        {
            assert(faults@.take(i as int + 1).drop_last() =~= faults@.take(i as int));
            assert(faults@.take(i as int + 1).last() == faults@[i as int]);
            match faults[i] {
                PortFault::Disconnected { port } => {
                    if self.ports.insert(port) {
                        logged.push(port);
                    }
                },
                PortFault::IncorrectDevice { .. } => {},
            }
            i += 1;
        }
        assert(faults@.take(faults@.len() as int) =~= faults@);
        logged
    }

    /// Whether a disconnect on `port` has been reported.
    pub fn has_reported(&self, port: u8) -> (r: bool)
        ensures
            r == self@.contains(port),
    {
        broadcast use vstd::std_specs::hash::group_hash_axioms;

        self.ports.contains(&port)
    }
}

} // verus!
