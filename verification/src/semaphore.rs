use vstd::prelude::*;

use crate::device::Device;
use crate::error::Error;

verus! {

/// A semaphore ordering work across queues.  It tracks whether a
/// submitted signal operation has no matching wait yet: signalling
/// twice in a row, or waiting with no signal pending, is refused at
/// submission.
#[derive(Clone, Copy, Debug, PartialEq, Eq, Structural)]
pub struct Semaphore {
    pub handle: u64,
    /// The identity of the owning device.
    pub device: u64,
    /// True if a submitted signal has no matching wait yet.
    pub signal_pending: bool,
}

impl Semaphore {
    /// Creates a semaphore with no signal pending.
    pub fn new(device: &mut Device) -> (r: Result<Semaphore, Error>)
        ensures
            r is Ok,
            r->Ok_0.device == old(device).id,
            !r->Ok_0.signal_pending,
            crate::device::spec_device_after_mint(*old(device), *final(device)),
    {
        let handle = device.fresh_handle();
        Ok(Semaphore { handle, device: device.id, signal_pending: false })
    }

    /// The raw handle of the semaphore.
    pub fn handle(&self) -> (r: u64)
        ensures
            r == self.handle,
    {
        self.handle
    }

    /// The raw handle of the semaphore, from exclusive access.
    pub fn mut_handle(&mut self) -> (r: u64)
        ensures
            *final(self) == *old(self),
            r == old(self).handle,
    {
        self.handle
    }

    /// A witness that the semaphore has a signal pending.
    pub fn to_signalled(&self) -> (r: Option<SignalledSemaphore>)
        ensures
            r is Some <==> self.signal_pending,
            r is Some ==> r->0.handle == self.handle,
    {
        if self.signal_pending {
            Some(SignalledSemaphore { handle: self.handle })
        } else {
            None
        }
    }
}

/// A semaphore known to have a signal pending.
#[derive(Clone, Copy, Debug, PartialEq, Eq, Structural)]
pub struct SignalledSemaphore {
    pub handle: u64,
}

impl SignalledSemaphore {
    /// The raw handle of the semaphore.
    pub fn into_handle(self) -> (r: u64)
        ensures
            r == self.handle,
    {
        self.handle
    }
}

} // verus!
