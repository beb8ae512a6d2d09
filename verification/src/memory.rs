use vstd::prelude::*;

use crate::device::Device;
use crate::error::Error;
use crate::types::MemoryRequirements;


verus! {

/// A fixed-size device-memory allocation.  Buffers and images are bound
/// to a byte range of it; bounds and alignment are checked against the
/// resource's requirements at bind time.  The allocation counts the
/// resources bound to it and may be freed only once the last of them
/// has been destroyed.
#[derive(Debug)]
pub struct DeviceMemory {
    pub handle: u64,
    /// The identity of the owning device.
    pub device: u64,
    /// Size of the allocation in bytes.
    pub allocation_size: u64,
    /// The memory type the allocation was made from.
    pub memory_type_index: u32,
    /// How many bound resources currently live on the allocation.
    pub bound_resources: u64,
}

impl DeviceMemory {
    /// Allocates device memory.  Returns `OutOfBounds` if no memory type
    /// with the given index exists, and `LimitExceeded` if the device's
    /// allocation limit is reached; nothing is changed then.
    pub fn new(device: &mut Device, allocation_size: u64, memory_type_index: u32) -> (r: Result<
        DeviceMemory,
        Error,
    >)
        ensures
            r is Ok <==> memory_type_index < old(device).physical.memory.memory_types.len() && old(
                device,
            ).memory_allocation_count < old(device).limits.max_memory_allocation_count,
            r is Err && r->Err_0 == Error::OutOfBounds <==> memory_type_index >= old(
                device,
            ).physical.memory.memory_types.len(),
            r is Err && r->Err_0 == Error::LimitExceeded <==> memory_type_index < old(
                device,
            ).physical.memory.memory_types.len() && old(device).memory_allocation_count >= old(
                device,
            ).limits.max_memory_allocation_count,
            r is Err ==> *final(device) == *old(device),
            r is Ok ==> {
                let m = r->Ok_0;
                &&& m.device == old(device).id
                &&& m.allocation_size == allocation_size
                &&& m.memory_type_index == memory_type_index
                &&& m.bound_resources == 0
                &&& crate::device::spec_device_after_memory_alloc(*old(device), *final(device))
            },
    {
        if memory_type_index as usize >= device.physical.memory.memory_types.len() {
            return Err(Error::OutOfBounds);
        }
        match device.increment_memory_alloc_count() {
            Err(e) => Err(e),
            Ok(()) => {
                let handle = device.fresh_handle();
                Ok(
                    DeviceMemory {
                        handle,
                        device: device.id,
                        allocation_size,
                        memory_type_index,
                        bound_resources: 0,
                    },
                )
            },
        }
    }

    /// The raw handle of the allocation.
    pub fn handle(&self) -> (r: u64)
        ensures
            r == self.handle,
    {
        self.handle
    }

    /// The raw handle of the allocation, from exclusive access.
    pub fn mut_handle(&mut self) -> (r: u64)
        ensures
            *final(self) == *old(self),
            r == old(self).handle,
    {
        self.handle
    }

    /// The identity of the owning device.
    pub fn device(&self) -> (r: u64)
        ensures
            r == self.device,
    {
        self.device
    }

    /// The size of the allocation in bytes.
    pub fn len(&self) -> (r: u64)
        ensures
            r == self.allocation_size,
    {
        self.allocation_size
    }

    /// True if a resource with `requirements` may be bound at `offset`:
    /// the allocation's memory type is among the permitted ones, the
    /// offset is aligned, and the required bytes lie inside the
    /// allocation.
    pub open spec fn spec_check(self, offset: u64, requirements: MemoryRequirements) -> bool {
        &&& self.memory_type_index < 32
        &&& requirements.memory_type_bits & (1u32 << self.memory_type_index) != 0
        &&& requirements.alignment > 0
        &&& offset as int % (requirements.alignment as int) == 0
        &&& offset + requirements.size <= self.allocation_size
    }

    /// Checks whether the memory meets `requirements` at `offset`.
    pub fn check(&self, offset: u64, requirements: MemoryRequirements) -> (r: bool)
        ensures
            r == self.spec_check(offset, requirements),
    {
        self.memory_type_index < 32 && requirements.memory_type_bits & (1u32
            << self.memory_type_index) != 0 && requirements.alignment > 0 && offset
            % requirements.alignment == 0 && offset <= self.allocation_size && self.allocation_size
            - offset >= requirements.size
    }

    /// Frees the allocation, releasing its slot in the device's
    /// allocation count.  Returns `SynchronizationError`, handing the
    /// allocation back, while a bound resource still lives on it, and
    /// `InvalidArgument` if the allocation belongs to another device or
    /// the device records no live allocation.
    pub fn free(self, device: &mut Device) -> (r: Result<(), (Error, DeviceMemory)>)
        ensures
            r is Ok <==> self.device == old(device).id && self.bound_resources == 0 && old(
                device,
            ).memory_allocation_count > 0,
            r is Err && r->Err_0.0 == Error::SynchronizationError <==> self.device == old(
                device,
            ).id && self.bound_resources > 0 && old(device).memory_allocation_count > 0,
            r is Err ==> r->Err_0.1 == self && *final(device) == *old(device),
            r is Ok ==> *final(device) == (Device {
                memory_allocation_count: (old(device).memory_allocation_count - 1) as u32,
                ..*old(device)
            }),
    {
        if self.device != device.id || device.memory_allocation_count == 0 {
            return Err((Error::InvalidArgument, self));
        }
        if self.bound_resources > 0 {
            return Err((Error::SynchronizationError, self));
        }
        device.decrement_memory_alloc_count();
        Ok(())
    }

    /// Maps a range of the memory for host access.  Returns `OutOfBounds`,
    /// handing the allocation back, if the range does not lie inside it.
    pub fn map(self, offset: u64, size: usize) -> (r: Result<MappedMemory, (Error, DeviceMemory)>)
        ensures
            r is Ok <==> offset + size <= self.allocation_size && size <= isize::MAX,
            r is Ok ==> {
                let m = r->Ok_0;
                &&& m.memory == self
                &&& m.offset == offset
                &&& m.data.len() == size
            },
            r is Err ==> r->Err_0 == (Error::OutOfBounds, self),
    {
        if size as u64 > self.allocation_size || offset > self.allocation_size - size as u64
            || size > isize::MAX as usize {
            return Err((Error::OutOfBounds, self));
        }
        let mut data: Vec<u8> = Vec::new();
        let mut i: usize = 0;
        while i < size
            invariant
                i <= size,
                data.len() == i,
            decreases size - i,
        {
            data.push(0);
            i = i + 1;
        }
        Ok(MappedMemory { memory: self, offset, data })
    }
}

/// A device-memory allocation mapped for host access.  The mapped bytes
/// are held as plain data.
#[derive(Debug)]
pub struct MappedMemory {
    pub memory: DeviceMemory,
    pub offset: u64,
    pub data: Vec<u8>,
}

impl MappedMemory {
    /// Unmaps the memory and returns the allocation.
    pub fn unmap(self) -> (r: DeviceMemory)
        ensures
            r == self.memory,
    {
        self.memory
    }

    /// The mapped bytes.
    pub fn as_slice(&self) -> (r: &Vec<u8>)
        ensures
            r == &self.data,
    {
        &self.data
    }

    /// Writes one mapped byte.
    pub fn write_byte(&mut self, index: usize, value: u8)
        requires
            index < old(self).data.len(),
        ensures
            final(self).memory == old(self).memory,
            final(self).offset == old(self).offset,
            final(self).data@ == old(self).data@.update(index as int, value),
    {
        self.data.set(index, value);
    }
}

} // verus!
