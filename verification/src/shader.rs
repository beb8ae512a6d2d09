use vstd::prelude::*;

use crate::device::Device;
use crate::error::Error;

verus! {

/// A shader module: an opaque program blob handed to pipeline creation.
#[derive(Clone, Copy, Debug, PartialEq, Eq, Structural)]
pub struct ShaderModule {
    pub handle: u64,
    /// The identity of the owning device.
    pub device: u64,
}

impl ShaderModule {
    /// Creates a shader module from a program blob, which must not be
    /// empty.
    pub fn new(device: &mut Device, code: &Vec<u32>) -> (r: Result<ShaderModule, Error>)
        requires
            code.len() > 0,
        ensures
            r is Ok,
            r->Ok_0.device == old(device).id,
            crate::device::spec_device_after_mint(*old(device), *final(device)),
    {
        let _ = code;
        let handle = device.fresh_handle();
        Ok(ShaderModule { handle, device: device.id })
    }

    /// The raw handle of the module.
    pub fn handle(&self) -> (r: u64)
        ensures
            r == self.handle,
    {
        self.handle
    }
}

} // verus!
