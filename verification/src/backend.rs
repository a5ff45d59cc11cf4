//! One upstream endpoint: its load and its health.

use crate::address::{SocketAddress, ToSocketAddr};
use vstd::prelude::*;

verus! {

/// What a backend is, as a mathematical value.
pub struct BackendView {
    /// The serial number under which this backend joined the pool. It tells
    /// the backend from any other that came or will come under the same
    /// address.
    pub serial: u64,
    /// The endpoint, fixed for the backend's life.
    pub address: SocketAddress,
    /// Sessions handed this backend whose outcome is not yet recorded.
    pub active_count: i32,
    /// The seconds set by the last outcome that was no success; 0 where none
    /// is known.
    pub last_failure: u64,
    /// Reserved for health gating; selection does not consult it.
    pub unavailable: bool,
}

/// The counter one above `count`, wrapping at the ends of its range.
pub open spec fn count_up(count: i32) -> i32 {
    if count == i32::MAX {
        i32::MIN
    } else {
        (count + 1) as i32
    }
}

/// The counter one below `count`, wrapping at the ends of its range.
pub open spec fn count_down(count: i32) -> i32 {
    if count == i32::MIN {
        i32::MAX
    } else {
        (count - 1) as i32
    }
}

impl BackendView {
    /// A backend as it is when its address joins the pool.
    pub open spec fn fresh(serial: u64, address: SocketAddress) -> BackendView {
        BackendView { serial, address, active_count: 0, last_failure: 0, unavailable: false }
    }

    /// This backend after one more session was handed it.
    pub open spec fn begun(self) -> BackendView {
        BackendView { active_count: count_up(self.active_count), ..self }
    }

    /// This backend after one session's outcome was recorded: the load is one
    /// less; a success (`failed_after` is `None`) clears the failure clock, any
    /// other outcome sets it to the seconds given.
    pub open spec fn settled(self, failed_after: Option<u64>) -> BackendView {
        BackendView {
            active_count: count_down(self.active_count),
            last_failure: match failed_after {
                Some(seconds) => seconds,
                None => 0,
            },
            ..self
        }
    }

    /// Whether this is the backend that `handle` was issued for.
    pub open spec fn serves(self, handle: BackendHandle) -> bool {
        self.serial == handle.serial() && self.address == handle.endpoint()
    }
}

/// One upstream endpoint with its load and health, as the pool keeps it.
#[derive(Clone, Copy, Debug)]
pub struct Backend {
    serial: u64,
    address: SocketAddress,
    active_counter: i32,
    last_failure: u64,
    unavailable: bool,
}

impl View for Backend {
    type V = BackendView;

    closed spec fn view(&self) -> BackendView {
        BackendView {
            serial: self.serial,
            address: self.address,
            active_count: self.active_counter,
            last_failure: self.last_failure,
            unavailable: self.unavailable,
        }
    }
}

impl Backend {
    /// A backend for `address` with no load and no known failure.
    pub(crate) fn init(serial: u64, address: SocketAddress) -> (backend: Backend)
        ensures
            backend@ == BackendView::fresh(serial, address),
    {
        Backend { serial, address, active_counter: 0, last_failure: 0, unavailable: false }
    }

    /// Counts one more session on this backend.
    pub(crate) fn begin(&mut self)
        ensures
            final(self)@ == old(self)@.begun(),
    {
        self.active_counter = self.active_counter.wrapping_add(1);
    }

    /// Counts one session off this backend and sets its failure clock.
    pub(crate) fn settle(&mut self, failed_after: Option<u64>)
        ensures
            final(self)@ == old(self)@.settled(failed_after),
    {
        self.active_counter = self.active_counter.wrapping_sub(1);
        self.last_failure = match failed_after {
            Some(seconds) => seconds,
            None => 0,
        };
    }

    /// The handle by which a session refers to this backend.
    pub fn handle(&self) -> (handle: BackendHandle)
        ensures
            self@.serves(handle),
    {
        BackendHandle { serial: self.serial, address: self.address }
    }

    /// Whether this is the backend that `handle` was issued for.
    pub fn serves(&self, handle: &BackendHandle) -> (same: bool)
        ensures
            same == self@.serves(*handle),
    {
        self.serial == handle.serial && self.address == handle.address
    }

    /// The endpoint.
    pub fn address(&self) -> (address: SocketAddress)
        ensures
            address == self@.address,
    {
        self.address
    }

    /// Sessions handed this backend whose outcome is not yet recorded.
    pub fn active_count(&self) -> (count: i32)
        ensures
            count == self@.active_count,
    {
        self.active_counter
    }

    /// The seconds set by the last outcome that was no success, 0 where none
    /// is known.
    pub fn last_failure_epoch_seconds(&self) -> (seconds: u64)
        ensures
            seconds == self@.last_failure,
    {
        self.last_failure
    }

    /// The health flag; nothing sets it yet.
    pub fn unavailable(&self) -> (flag: bool)
        ensures
            flag == self@.unavailable,
    {
        self.unavailable
    }
}

/// What a session holds of the backend it was given: enough to dial it and to
/// record the outcome on it, whether or not the pool still lists it.
#[derive(Clone, Copy, Debug)]
pub struct BackendHandle {
    serial: u64,
    address: SocketAddress,
}

impl BackendHandle {
    /// The serial number of the backend this handle was issued for.
    pub closed spec fn serial(self) -> u64 {
        self.serial
    }
}

impl ToSocketAddr for BackendHandle {
    closed spec fn endpoint(&self) -> SocketAddress {
        self.address
    }

    fn address(&self) -> (address: &SocketAddress) {
        &self.address
    }
}

} // verus!
