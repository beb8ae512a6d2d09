use vstd::prelude::*;

use crate::device::Device;
use crate::enums::BufferUsageFlags;
use crate::enums::MEMORY_PROPERTY_HOST_VISIBLE;
use crate::error::Error;
use crate::memory::DeviceMemory;
use crate::types::BufferCreateInfo;
use crate::types::MemoryRequirements;

verus! {

/// The alignment the model requires of every buffer binding.
pub const BUFFER_ALIGNMENT: u64 = 256;

/// A buffer with no memory.  Binding memory turns it into a [`Buffer`];
/// a failed bind hands it back unchanged.
#[derive(Clone, Copy, Debug, PartialEq, Eq, Structural)]
pub struct BufferWithoutMemory {
    pub handle: u64,
    /// Length of the buffer in bytes.
    pub len: u64,
    /// The usages the buffer permits.
    pub usage: BufferUsageFlags,
    /// The identity of the owning device.
    pub device: u64,
}

/// A buffer with memory bound to it.
#[derive(Clone, Copy, Debug, PartialEq, Eq, Structural)]
pub struct Buffer {
    pub inner: BufferWithoutMemory,
    /// The handle of the allocation the buffer is bound to.
    pub memory: u64,
    /// The byte offset of the binding inside the allocation.
    pub memory_offset: u64,
}

/// True if memory type `i` of `device` may back a resource whose usage
/// permits arbitrary indexed access exactly when `indexable` holds: the
/// type must exist, and host-visible types are ruled out when the device
/// lacks robust access and the resource is indexable.
pub open spec fn spec_type_allowed(device: Device, indexable: bool, i: u32) -> bool {
    &&& i < device.physical.memory.memory_types.len()
    &&& i < 32
    &&& !((!(device.enabled.robust_buffer_access is True) && indexable)
        && device.physical.memory.memory_types@[i as int].property_flags.0
        & MEMORY_PROPERTY_HOST_VISIBLE != 0)
}

/// Computes the permitted-type mask for a resource of the given
/// indexability on `device`.
pub(crate) fn compute_type_bits(device: &Device, indexable: bool) -> (r: u32)
    ensures
        forall|i: u32|
            i < 32 ==> (MemoryRequirements::spec_bit_set(r, i) <==> spec_type_allowed(
                *device,
                indexable,
                i,
            )),
{
    let n_types = device.physical.memory.memory_types.len();
    let n: u32 = if n_types >= 32 {
        32
    } else {
        n_types as u32
    };
    let mut base: u32 = 0;
    proof {
        assert forall|j: u32| j < 32 implies !MemoryRequirements::spec_bit_set(0u32, j) by {
            assert(0u32 & (1u32 << j) == 0) by (bit_vector);
        }
    }
    let mut i: u32 = 0;
    while i < n
        invariant
            i <= n,
            n <= 32,
            forall|j: u32|
                j < 32 ==> (#[trigger] MemoryRequirements::spec_bit_set(base, j) <==> j < i),
        decreases n - i,
    {
        let ghost b0: u32 = base;
        base = base | (1u32 << i);
        proof {
            let iu = i;
            assert forall|j: u32| j < 32 implies (#[trigger] MemoryRequirements::spec_bit_set(
                base,
                j,
            ) <==> (MemoryRequirements::spec_bit_set(b0, j) || j == iu)) by {
                assert(((b0 | (1u32 << iu)) & (1u32 << j) != 0) == ((b0 & (1u32 << j) != 0) || j
                    == iu)) by (bit_vector)
                    requires
                        j < 32 && iu < 32,
                ;
            }
        }
        i = i + 1;
    }
    let mut reqs = MemoryRequirements { size: 0, alignment: 1, memory_type_bits: base };
    let robust = device.enabled.robust_buffer_access.as_bool();
    if !robust && indexable {
        reqs.clear_host_visible_types(device.physical.memory_properties());
    }
    reqs.memory_type_bits
}

impl BufferWithoutMemory {
    /// Creates a buffer of the length and usages of `info`.
    pub fn new(device: &mut Device, info: &BufferCreateInfo) -> (r: Result<
        BufferWithoutMemory,
        Error,
    >)
        ensures
            r is Ok,
            r->Ok_0.len == info.size,
            r->Ok_0.usage == info.usage,
            r->Ok_0.device == old(device).id,
            crate::device::spec_device_after_mint(*old(device), *final(device)),
    {
        let handle = device.fresh_handle();
        Ok(BufferWithoutMemory { handle, len: info.size, usage: info.usage, device: device.id })
    }

    /// The raw handle of the buffer.
    pub fn handle(&self) -> (r: u64)
        ensures
            r == self.handle,
    {
        self.handle
    }

    /// The raw handle of the buffer, from exclusive access.
    pub fn handle_mut(&mut self) -> (r: u64)
        ensures
            *final(self) == *old(self),
            r == old(self).handle,
    {
        self.handle
    }

    /// The identity of the owning device.
    pub fn device(&self) -> (r: u64)
        ensures
            r == self.device,
    {
        self.device
    }

    /// The buffer length in bytes.
    pub fn len(&self) -> (r: u64)
        ensures
            r == self.len,
    {
        self.len
    }

    /// True if the range of `len` bytes at `offset` lies inside the
    /// buffer.
    pub fn bounds_check(&self, offset: u64, len: u64) -> (r: bool)
        ensures
            r == (offset + len <= self.len),
    {
        self.len >= offset && self.len - offset >= len
    }

    /// The allowed buffer usages.
    pub fn usage(&self) -> (r: BufferUsageFlags)
        ensures
            r == self.usage,
    {
        self.usage
    }

    /// What the buffer needs of memory it is bound to.  Host-visible
    /// memory types are withheld when the buffer's usage permits arbitrary
    /// indexed access and robust buffer access is not enabled.
    pub fn memory_requirements(&self, device: &Device) -> (r: MemoryRequirements)
        requires
            device.id == self.device,
        ensures
            r.size == self.len,
            r.alignment == BUFFER_ALIGNMENT,
            forall|i: u32|
                i < 32 ==> (MemoryRequirements::spec_bit_set(r.memory_type_bits, i)
                    <==> spec_type_allowed(
                    *device,
                    self.usage.0 & crate::enums::BUFFER_USAGE_INDEXABLE != 0,
                    i,
                )),
    {
        let bits = compute_type_bits(device, self.usage.indexable());
        MemoryRequirements { size: self.len, alignment: BUFFER_ALIGNMENT, memory_type_bits: bits }
    }

    /// Allocates memory fit for this buffer from the given memory type and
    /// binds the buffer to it.  Returns `InvalidArgument`, handing the
    /// buffer back unchanged, if the type may not back this buffer, and
    /// `LimitExceeded` if the device's allocation limit is reached.
    pub fn allocate_memory(self, device: &mut Device, memory_type_index: u32) -> (r: Result<
        (Buffer, DeviceMemory),
        (Error, BufferWithoutMemory),
    >)
        requires
            device.id == self.device,
        ensures
            r is Ok <==> spec_type_allowed(
                *old(device),
                self.usage.0 & crate::enums::BUFFER_USAGE_INDEXABLE != 0,
                memory_type_index,
            ) && old(device).memory_allocation_count < old(
                device,
            ).limits.max_memory_allocation_count,
            r is Err ==> r->Err_0.1 == self && *final(device) == *old(device),
            r is Err && r->Err_0.0 == Error::InvalidArgument <==> !spec_type_allowed(
                *old(device),
                self.usage.0 & crate::enums::BUFFER_USAGE_INDEXABLE != 0,
                memory_type_index,
            ),
            r is Err && r->Err_0.0 == Error::LimitExceeded <==> spec_type_allowed(
                *old(device),
                self.usage.0 & crate::enums::BUFFER_USAGE_INDEXABLE != 0,
                memory_type_index,
            ) && old(device).memory_allocation_count >= old(
                device,
            ).limits.max_memory_allocation_count,
            r is Ok ==> {
                let (b, m) = r->Ok_0;
                &&& b.inner == self
                &&& b.memory == m.handle
                &&& b.memory_offset == 0
                &&& m.device == old(device).id
                &&& m.allocation_size == self.len
                &&& m.memory_type_index == memory_type_index
                &&& m.bound_resources == 1
                &&& crate::device::spec_device_after_memory_alloc(*old(device), *final(device))
            },
    {
        let reqs = self.memory_requirements(device);
        let allowed = memory_type_index < 32 && reqs.memory_type_bits & (1u32
            << memory_type_index) != 0;
        proof {
            if memory_type_index < 32 {
                assert(MemoryRequirements::spec_bit_set(reqs.memory_type_bits, memory_type_index)
                    <==> spec_type_allowed(
                    *device,
                    self.usage.0 & crate::enums::BUFFER_USAGE_INDEXABLE != 0,
                    memory_type_index,
                ));
            }
            assert(allowed == spec_type_allowed(
                *device,
                self.usage.0 & crate::enums::BUFFER_USAGE_INDEXABLE != 0,
                memory_type_index,
            ));
        }
        if !allowed {
            return Err((Error::InvalidArgument, self));
        }
        let mut memory = match DeviceMemory::new(device, reqs.size, memory_type_index) {
            Ok(m) => m,
            Err(e) => {
                return Err((e, self));
            },
        };
        proof {
            assert(spec_type_allowed(
                *device,
                self.usage.0 & crate::enums::BUFFER_USAGE_INDEXABLE != 0,
                memory.memory_type_index,
            ));
        }
        match Buffer::new(self, device, &mut memory, 0) {
            Ok(b) => Ok((b, memory)),
            Err((e, inner)) => Err((e, inner)),
        }
    }
}

impl Buffer {
    /// The full outcome a bind admits: success exactly when the
    /// allocation's type may back the buffer and the aligned range
    /// fits; success yields the bound buffer and counts one more bound
    /// resource on the allocation; failure is `InvalidArgument` and
    /// hands back the unbound buffer with the allocation untouched.
    pub open spec fn spec_bind_outcome(
        buffer: BufferWithoutMemory,
        device: Device,
        memory_before: DeviceMemory,
        memory_after: DeviceMemory,
        offset: u64,
        r: Result<Buffer, (Error, BufferWithoutMemory)>,
    ) -> bool {
        &&& (r is Ok <==> spec_type_allowed(
            device,
            buffer.usage.0 & crate::enums::BUFFER_USAGE_INDEXABLE != 0,
            memory_before.memory_type_index,
        ) && offset as int % (BUFFER_ALIGNMENT as int) == 0 && offset + buffer.len
            <= memory_before.allocation_size)
        &&& (r is Ok ==> r->Ok_0 == (Buffer {
            inner: buffer,
            memory: memory_before.handle,
            memory_offset: offset,
        }) && memory_after == (DeviceMemory {
            bound_resources: (memory_before.bound_resources + 1) as u64,
            ..memory_before
        }))
        &&& (r is Err ==> r->Err_0 == (Error::InvalidArgument, buffer) && memory_after
            == memory_before)
    }

    /// Binds `buffer` to `memory` at `offset`, counting the binding on
    /// the allocation.  On failure the unbound buffer is handed back
    /// unchanged and the allocation is untouched, so the caller can
    /// retry with different memory.
    pub fn new(
        buffer: BufferWithoutMemory,
        device: &Device,
        memory: &mut DeviceMemory,
        offset: u64,
    ) -> (r: Result<Buffer, (Error, BufferWithoutMemory)>)
        requires
            device.id == buffer.device,
            old(memory).device == buffer.device,
            old(memory).bound_resources < u64::MAX,
        ensures
            Buffer::spec_bind_outcome(buffer, *device, *old(memory), *final(memory), offset, r),
    {
        let reqs = buffer.memory_requirements(device);
        proof {
            if memory.memory_type_index < 32 {
                assert(MemoryRequirements::spec_bit_set(
                    reqs.memory_type_bits,
                    memory.memory_type_index,
                ) <==> spec_type_allowed(
                    *device,
                    buffer.usage.0 & crate::enums::BUFFER_USAGE_INDEXABLE != 0,
                    memory.memory_type_index,
                ));
            }
        }
        if !memory.check(offset, reqs) {
            return Err((Error::InvalidArgument, buffer));
        }
        let bound = Buffer { inner: buffer, memory: memory.handle(), memory_offset: offset };
        memory.bound_resources = memory.bound_resources + 1;
        Ok(bound)
    }

    /// Destroys the buffer, releasing its binding on the allocation.
    /// Returns `InvalidArgument`, handing the buffer back, if the
    /// allocation is not the one the buffer is bound to.
    pub fn destroy(self, memory: &mut DeviceMemory) -> (r: Result<(), (Error, Buffer)>)
        ensures
            r is Ok <==> self.memory == old(memory).handle && old(memory).bound_resources > 0,
            r is Err ==> r->Err_0 == (Error::InvalidArgument, self) && *final(memory) == *old(
                memory,
            ),
            r is Ok ==> *final(memory) == (DeviceMemory {
                bound_resources: (old(memory).bound_resources - 1) as u64,
                ..*old(memory)
            }),
    {
        if self.memory != memory.handle || memory.bound_resources == 0 {
            return Err((Error::InvalidArgument, self));
        }
        memory.bound_resources = memory.bound_resources - 1;
        Ok(())
    }

    /// The raw handle of the buffer.
    pub fn handle(&self) -> (r: u64)
        ensures
            r == self.inner.handle,
    {
        self.inner.handle
    }

    /// The identity of the owning device.
    pub fn device(&self) -> (r: u64)
        ensures
            r == self.inner.device,
    {
        self.inner.device
    }

    /// The buffer length in bytes.
    pub fn len(&self) -> (r: u64)
        ensures
            r == self.inner.len,
    {
        self.inner.len
    }

    /// True if the range of `len` bytes at `offset` lies inside the
    /// buffer.
    pub fn bounds_check(&self, offset: u64, len: u64) -> (r: bool)
        ensures
            r == (offset + len <= self.inner.len),
    {
        self.inner.bounds_check(offset, len)
    }

    /// The allowed buffer usages.
    pub fn usage(&self) -> (r: BufferUsageFlags)
        ensures
            r == self.inner.usage,
    {
        self.inner.usage
    }
}

/// A failed bind leaves the callee usable: for every outcome the bind
/// relation admits, an error carries `InvalidArgument` and the unbound
/// buffer unchanged, and leaves the allocation untouched, so the caller
/// can retry with different memory and the buffer still reports the
/// same length, usage and memory requirements as before the attempt.
pub proof fn lemma_bind_failure_leaves_buffer_usable(
    buffer: BufferWithoutMemory,
    device: Device,
    memory_before: DeviceMemory,
    memory_after: DeviceMemory,
    offset: u64,
    r: Result<Buffer, (Error, BufferWithoutMemory)>,
)
    requires
        Buffer::spec_bind_outcome(buffer, device, memory_before, memory_after, offset, r),
        r is Err,
    ensures
        r->Err_0.1 == buffer,
        r->Err_0.0 == Error::InvalidArgument,
        memory_after == memory_before,
{
}

} // verus!
