use vstd::prelude::*;

use crate::device::Device;
use crate::enums::AttachmentLoadOp;
use crate::enums::AttachmentStoreOp;
use crate::enums::Format;
use crate::enums::ImageLayout;
use crate::enums::SampleCount;
use crate::enums::SubpassDescriptionFlags;
use crate::error::Error;
use crate::types::copy_vec;

verus! {

/// The description of one attachment of a render pass.
#[derive(Clone, Copy, Debug, PartialEq, Eq, Structural)]
pub struct AttachmentDescription {
    pub format: Format,
    pub samples: SampleCount,
    pub load_op: AttachmentLoadOp,
    pub store_op: AttachmentStoreOp,
    pub initial_layout: ImageLayout,
    pub final_layout: ImageLayout,
}

/// One rendering stage of a render pass.
#[derive(Clone, Copy, Debug, PartialEq, Eq, Structural)]
pub struct SubpassDescription {
    pub flags: SubpassDescriptionFlags,
}

impl SubpassDescription {
    /// A plain subpass.
    pub fn new() -> (r: Self)
        ensures
            r.flags.0 == 0,
    {
        SubpassDescription { flags: SubpassDescriptionFlags(0) }
    }
}

/// Parameters of render pass creation.
#[derive(Debug)]
pub struct RenderPassCreateInfo {
    pub attachments: Vec<AttachmentDescription>,
    pub subpasses: Vec<SubpassDescription>,
}

/// What decides whether two render passes, or a render pass and a
/// framebuffer, may be used together: the count, format and sample count
/// of the attachments.
#[derive(Clone, Copy, Debug, PartialEq, Eq, Structural)]
pub struct AttachmentKey {
    pub format: Format,
    pub samples: SampleCount,
}

/// A declared sequence of rendering stages over a fixed set of
/// attachments.
#[derive(Debug)]
pub struct RenderPass {
    pub handle: u64,
    /// The identity of the owning device.
    pub device: u64,
    /// How many subpasses the pass declares.
    pub subpasses: u64,
    /// The compatibility key of the attachments, in declaration order.
    pub compat: Vec<AttachmentKey>,
}

impl RenderPass {
    /// Creates a render pass.  Returns `InvalidArgument` if no subpass is
    /// declared; nothing is changed then.
    pub fn new(device: &mut Device, info: &RenderPassCreateInfo) -> (r: Result<RenderPass, Error>)
        ensures
            r is Ok <==> info.subpasses.len() > 0,
            r is Err ==> r->Err_0 == Error::InvalidArgument && *final(device) == *old(device),
            r is Ok ==> {
                let p = r->Ok_0;
                &&& p.device == old(device).id
                &&& p.subpasses == info.subpasses.len()
                &&& p.compat.len() == info.attachments.len()
                &&& forall|k: int|
                    0 <= k < p.compat.len() ==> #[trigger] p.compat[k] == (AttachmentKey {
                        format: info.attachments[k].format,
                        samples: info.attachments[k].samples,
                    })
            },
            crate::device::spec_device_after_mint(*old(device), *final(device)),
    {
        if info.subpasses.len() == 0 {
            return Err(Error::InvalidArgument);
        }
        let mut compat: Vec<AttachmentKey> = Vec::new();
        let mut k: usize = 0;
        while k < info.attachments.len()
            invariant
                k <= info.attachments.len(),
                compat.len() == k,
                forall|j: int|
                    0 <= j < k ==> #[trigger] compat[j] == (AttachmentKey {
                        format: info.attachments@[j].format,
                        samples: info.attachments@[j].samples,
                    }),
            decreases info.attachments.len() - k,
        {
            let a = info.attachments[k];
            compat.push(AttachmentKey { format: a.format, samples: a.samples });
            k = k + 1;
        }
        let handle = device.fresh_handle();
        Ok(RenderPass { handle, device: device.id, subpasses: info.subpasses.len() as u64, compat })
    }

    /// The raw handle of the pass.
    pub fn handle(&self) -> (r: u64)
        ensures
            r == self.handle,
    {
        self.handle
    }

    /// The identity of the owning device.
    pub fn device(&self) -> (r: u64)
        ensures
            r == self.device,
    {
        self.device
    }

    /// How many subpasses the pass declares.
    pub fn num_subpasses(&self) -> (r: u64)
        ensures
            r == self.subpasses,
    {
        self.subpasses
    }

    /// An equal copy of the compatibility key.
    pub fn compat_key(&self) -> (r: Vec<AttachmentKey>)
        ensures
            r@ == self.compat@,
    {
        copy_vec(&self.compat)
    }

    /// True if the two passes are compatible: same device and same
    /// attachment count, formats and sample counts.
    pub fn compatible(&self, other: &RenderPass) -> (r: bool)
        ensures
            r == (self.device == other.device && self.compat@ == other.compat@),
    {
        self.device == other.device && attachment_keys_eq(&self.compat, &other.compat)
    }
}

/// Compares two attachment compatibility keys.
pub fn attachment_keys_eq(a: &Vec<AttachmentKey>, b: &Vec<AttachmentKey>) -> (r: bool)
    ensures
        r == (a@ == b@),
{
    if a.len() != b.len() {
        proof {
            assert(a@.len() != b@.len());
        }
        return false;
    }
    let mut i: usize = 0;
    while i < a.len()
        invariant
            i <= a.len(),
            a.len() == b.len(),
            forall|j: int| 0 <= j < i ==> a@[j] == b@[j],
        decreases a.len() - i,
    {
        if a[i] != b[i] {
            return false;
        }
        i = i + 1;
    }
    proof {
        assert(a@ =~= b@);
    }
    true
}

} // verus!
