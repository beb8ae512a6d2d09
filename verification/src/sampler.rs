use vstd::prelude::*;

use crate::device::Device;
use crate::error::Error;
use crate::types::SamplerCreateInfo;

verus! {

/// A sampler: the fixed description of how a shader filters an image.
/// Samplers are compared by handle identity.
#[derive(Clone, Copy, Debug, PartialEq, Eq, Structural)]
pub struct Sampler {
    pub handle: u64,
    /// The identity of the owning device.
    pub device: u64,
}

impl Sampler {
    /// Creates a sampler.  Returns `LimitExceeded`, changing nothing, when
    /// the device's sampler limit is reached.
    pub fn new(device: &mut Device, info: &SamplerCreateInfo) -> (r: Result<Sampler, Error>)
        ensures
            r is Ok <==> old(device).sampler_allocation_count < old(
                device,
            ).limits.max_sampler_allocation_count,
            r is Err ==> r->Err_0 == Error::LimitExceeded && *final(device) == *old(device),
            r is Ok ==> r->Ok_0.device == old(device).id
                && crate::device::spec_device_after_sampler_alloc(*old(device), *final(device)),
    {
        let _ = info;
        match device.increment_sampler_alloc_count() {
            Err(e) => Err(e),
            Ok(()) => {
                let handle = device.fresh_handle();
                Ok(Sampler { handle, device: device.id })
            },
        }
    }

    /// Destroys the sampler, releasing its slot in the device's sampler
    /// count.  Returns `InvalidArgument`, handing the sampler back, if
    /// it belongs to another device or the device records no live
    /// sampler.
    pub fn destroy(self, device: &mut Device) -> (r: Result<(), (Error, Sampler)>)
        ensures
            r is Ok <==> self.device == old(device).id && old(device).sampler_allocation_count
                > 0,
            r is Err ==> r->Err_0 == (Error::InvalidArgument, self) && *final(device) == *old(
                device,
            ),
            r is Ok ==> *final(device) == (Device {
                sampler_allocation_count: (old(device).sampler_allocation_count - 1) as u32,
                ..*old(device)
            }),
    {
        if self.device != device.id || device.sampler_allocation_count == 0 {
            return Err((Error::InvalidArgument, self));
        }
        device.decrement_sampler_alloc_count();
        Ok(())
    }

    /// The raw handle of the sampler.
    pub fn handle(&self) -> (r: u64)
        ensures
            r == self.handle,
    {
        self.handle
    }

    /// The identity of the owning device.
    pub fn device(&self) -> (r: u64)
        ensures
            r == self.device,
    {
        self.device
    }
}

} // verus!
