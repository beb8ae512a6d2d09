use vstd::prelude::*;

use crate::error::Error;
use crate::instance::Instance;
use crate::instance::PhysicalDevice;
use crate::types::DeviceCreateInfo;
use crate::types::DeviceQueueCreateInfo;
use crate::types::PhysicalDeviceFeatures;
use crate::types::PhysicalDeviceLimits;
use crate::types::QueueFamilyProperties;

verus! {

/// A logical device: the object resources are created against.  It keeps
/// the adapter description it was opened with, the features enabled at
/// creation, and the allocation counters the limits speak of.
#[derive(Debug)]
pub struct Device {
    /// The identity of this device; resources carry it so that mixing
    /// devices is caught.
    pub id: u64,
    /// The adapter this device was opened on.
    pub physical: PhysicalDevice,
    /// The limits of the adapter, fixed at creation.
    pub limits: PhysicalDeviceLimits,
    /// The features enabled at creation.
    pub enabled: PhysicalDeviceFeatures,
    /// How many queues of each family this device owns.
    pub queues: Vec<u32>,
    /// Whether the queues have been handed out already.
    pub queues_taken: bool,
    /// Live device-memory allocations.
    pub memory_allocation_count: u32,
    /// Live samplers.
    pub sampler_allocation_count: u32,
    /// The next raw handle this device hands to a resource.
    pub next_handle: u64,
}

/// True if every queue request names an existing family and asks for no
/// more queues than the family offers.
pub open spec fn valid_queue_requests(
    infos: Seq<DeviceQueueCreateInfo>,
    families: Seq<QueueFamilyProperties>,
) -> bool {
    forall|k: int|
        0 <= k < infos.len() ==> #[trigger] infos[k].queue_family_index < families.len()
            && infos[k].queue_count <= families[infos[k].queue_family_index as int].queue_count
}

/// The number of queues of family `fam` that `infos` ends up requesting;
/// a later entry for the same family overrides an earlier one.
pub open spec fn requested_queue_count(infos: Seq<DeviceQueueCreateInfo>, fam: int) -> u32
    decreases infos.len(),
{
    if infos.len() == 0 {
        0
    } else if infos.last().queue_family_index == fam {
        infos.last().queue_count
    } else {
        requested_queue_count(infos.drop_last(), fam)
    }
}

/// True if `new_d` is `old_d` with nothing changed but the resource
/// handle counter: what a plain resource creation leaves of the device.
pub open spec fn spec_device_after_mint(old_d: Device, new_d: Device) -> bool {
    new_d == (Device { next_handle: new_d.next_handle, ..old_d })
}

/// True if `new_d` is `old_d` with one more live memory allocation and
/// nothing else changed but the handle counter.
pub open spec fn spec_device_after_memory_alloc(old_d: Device, new_d: Device) -> bool {
    new_d == (Device {
        next_handle: new_d.next_handle,
        memory_allocation_count: (old_d.memory_allocation_count + 1) as u32,
        ..old_d
    })
}

/// True if `new_d` is `old_d` with one more live sampler and nothing
/// else changed but the handle counter.
pub open spec fn spec_device_after_sampler_alloc(old_d: Device, new_d: Device) -> bool {
    new_d == (Device {
        next_handle: new_d.next_handle,
        sampler_allocation_count: (old_d.sampler_allocation_count + 1) as u32,
        ..old_d
    })
}

impl Device {
    /// Opens a logical device on `phy`.  Returns `OutOfBounds` if a queue
    /// request names a family the adapter does not have, or asks for more
    /// queues than the family offers; nothing is changed then.
    pub fn new(instance: &mut Instance, phy: &PhysicalDevice, info: &DeviceCreateInfo) -> (r:
        Result<Device, Error>)
        ensures
            r is Err <==> !valid_queue_requests(
                info.queue_create_infos@,
                phy.queue_families@,
            ),
            r is Err ==> r->Err_0 == Error::OutOfBounds && *final(instance) == *old(instance),
            r is Ok ==> {
                let d = r->Ok_0;
                &&& d.id == old(instance).next_device_id
                &&& d.limits == phy.properties.limits
                &&& d.enabled == (if info.enabled_features is Some {
                    info.enabled_features->0
                } else {
                    PhysicalDeviceFeatures { robust_buffer_access: crate::enums::Bool::False }
                })
                &&& d.queues.len() == phy.queue_families.len()
                &&& forall|f: int|
                    0 <= f < d.queues.len() ==> #[trigger] d.queues[f] == requested_queue_count(
                        info.queue_create_infos@,
                        f,
                    )
                &&& !d.queues_taken
                &&& d.memory_allocation_count == 0
                &&& d.sampler_allocation_count == 0
                &&& d.physical.memory.memory_types@ == phy.memory.memory_types@
                &&& d.physical.queue_families@ == phy.queue_families@
                &&& d.physical.properties == phy.properties
            },
    {
        let families = phy.queue_family_properties();
        let mut queues: Vec<u32> = Vec::new();
        let mut f: usize = 0;
        while f < families.len()
            invariant
                queues.len() == f,
                f <= families.len(),
                forall|g: int| 0 <= g < f ==> #[trigger] queues[g] == 0u32,
            decreases families.len() - f,
        {
            queues.push(0);
            f = f + 1;
        }
        proof {
            assert forall|g: int| 0 <= g < queues.len() implies #[trigger] queues[g]
                == requested_queue_count(info.queue_create_infos@.subrange(0, 0), g) by {
                assert(info.queue_create_infos@.subrange(0, 0).len() == 0);
            }
        }
        let mut k: usize = 0;
        while k < info.queue_create_infos.len()
            invariant
                k <= info.queue_create_infos.len(),
                queues.len() == phy.queue_families.len(),
                forall|j: int|
                    0 <= j < k ==> #[trigger] info.queue_create_infos@[j].queue_family_index
                        < phy.queue_families.len() && info.queue_create_infos@[j].queue_count
                        <= phy.queue_families@[info.queue_create_infos@[j].queue_family_index as int].queue_count,
                forall|g: int|
                    0 <= g < queues.len() ==> #[trigger] queues[g] == requested_queue_count(
                        info.queue_create_infos@.subrange(0, k as int),
                        g,
                    ),
                families == &phy.queue_families,
            decreases info.queue_create_infos.len() - k,
        {
            let q = info.queue_create_infos[k];
            let i = q.queue_family_index as usize;
            if i >= families.len() || q.queue_count > families[i].queue_count {
                proof {
                    assert(!valid_queue_requests(info.queue_create_infos@, phy.queue_families@));
                }
                return Err(Error::OutOfBounds);
            }
            let ghost prior = queues@;
            queues.set(i, q.queue_count);
            proof {
                let infos = info.queue_create_infos@;
                let pre = infos.subrange(0, k as int);
                let post = infos.subrange(0, k as int + 1);
                assert(post.drop_last() =~= pre);
                assert(post.last() == infos[k as int]);
                assert forall|g: int| 0 <= g < queues.len() implies #[trigger] queues[g]
                    == requested_queue_count(post, g) by {
                    if g == i {
                        assert(queues[g] == infos[k as int].queue_count);
                    } else {
                        assert(queues[g] == prior[g]);
                        assert(requested_queue_count(post, g) == requested_queue_count(pre, g));
                    }
                }
            }
            k = k + 1;
        }
        proof {
            assert(info.queue_create_infos@.subrange(0, info.queue_create_infos@.len() as int)
                =~= info.queue_create_infos@);
        }
        let id = instance.fresh_device_id();
        let enabled = match &info.enabled_features {
            Some(features) => *features,
            None => PhysicalDeviceFeatures { robust_buffer_access: crate::enums::Bool::False },
        };
        Ok(
            Device {
                id,
                physical: phy.duplicate(),
                limits: phy.properties().limits,
                enabled,
                queues,
                queues_taken: false,
                memory_allocation_count: 0,
                sampler_allocation_count: 0,
                next_handle: 1,
            },
        )
    }

    /// The raw handle of the device.
    pub fn handle(&self) -> (r: u64)
        ensures
            r == self.id,
    {
        self.id
    }

    /// The limits of the device.
    pub fn limits(&self) -> (r: PhysicalDeviceLimits)
        ensures
            r == self.limits,
    {
        self.limits
    }

    /// The features enabled at device creation.
    pub fn enabled(&self) -> (r: PhysicalDeviceFeatures)
        ensures
            r == self.enabled,
    {
        self.enabled
    }

    /// The adapter the device was opened on.
    pub fn physical_device(&self) -> (r: &PhysicalDevice)
        ensures
            r == &self.physical,
    {
        &self.physical
    }

    /// The handle of the owning instance.
    pub fn instance(&self) -> (r: u64)
        ensures
            r == self.physical.instance,
    {
        self.physical.instance()
    }

    /// True if the device owns more than `queue_index` queues of family
    /// `queue_family_index`.
    pub fn has_queue(&self, queue_family_index: u32, queue_index: u32) -> (r: bool)
        ensures
            r == (queue_family_index < self.queues.len()
                && self.queues[queue_family_index as int] >= queue_index),
    {
        let i = queue_family_index as usize;
        i < self.queues.len() && self.queues[i] >= queue_index
    }

    /// Hands out a raw handle for a new resource of this device.  Handles
    /// grow and never repeat while they stay below the largest
    /// representable value.
    pub fn fresh_handle(&mut self) -> (r: u64)
        ensures
            r == old(self).next_handle,
            old(self).next_handle < u64::MAX ==> final(self).next_handle == old(self).next_handle
                + 1,
            *final(self) == (Device { next_handle: final(self).next_handle, ..*old(self) }),
    {
        let h = self.next_handle;
        if self.next_handle < u64::MAX {
            self.next_handle = self.next_handle + 1;
        }
        h
    }

    /// Reserves one device-memory allocation against the device limit.
    /// Returns `LimitExceeded`, changing nothing, when the limit is
    /// reached.
    pub(crate) fn increment_memory_alloc_count(&mut self) -> (r: Result<(), Error>)
        ensures
            r is Err <==> old(self).memory_allocation_count
                >= old(self).limits.max_memory_allocation_count,
            r is Err ==> r->Err_0 == Error::LimitExceeded && *final(self) == *old(self),
            r is Ok ==> *final(self) == (Device {
                memory_allocation_count: (old(self).memory_allocation_count + 1) as u32,
                ..*old(self)
            }),
    {
        if self.memory_allocation_count >= self.limits.max_memory_allocation_count {
            Err(Error::LimitExceeded)
        } else {
            self.memory_allocation_count = self.memory_allocation_count + 1;
            Ok(())
        }
    }

    /// Releases one device-memory allocation.
    pub(crate) fn decrement_memory_alloc_count(&mut self)
        requires
            old(self).memory_allocation_count > 0,
        ensures
            *final(self) == (Device {
                memory_allocation_count: (old(self).memory_allocation_count - 1) as u32,
                ..*old(self)
            }),
    {
        self.memory_allocation_count = self.memory_allocation_count - 1;
    }

    /// Reserves one sampler against the device limit.  Returns
    /// `LimitExceeded`, changing nothing, when the limit is reached.
    pub(crate) fn increment_sampler_alloc_count(&mut self) -> (r: Result<(), Error>)
        ensures
            r is Err <==> old(self).sampler_allocation_count
                >= old(self).limits.max_sampler_allocation_count,
            r is Err ==> r->Err_0 == Error::LimitExceeded && *final(self) == *old(self),
            r is Ok ==> *final(self) == (Device {
                sampler_allocation_count: (old(self).sampler_allocation_count + 1) as u32,
                ..*old(self)
            }),
    {
        if self.sampler_allocation_count >= self.limits.max_sampler_allocation_count {
            Err(Error::LimitExceeded)
        } else {
            self.sampler_allocation_count = self.sampler_allocation_count + 1;
            Ok(())
        }
    }

    /// Releases one sampler.
    pub(crate) fn decrement_sampler_alloc_count(&mut self)
        requires
            old(self).sampler_allocation_count > 0,
        ensures
            *final(self) == (Device {
                sampler_allocation_count: (old(self).sampler_allocation_count - 1) as u32,
                ..*old(self)
            }),
    {
        self.sampler_allocation_count = self.sampler_allocation_count - 1;
    }
}

} // verus!
