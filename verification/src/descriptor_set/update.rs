use vstd::prelude::*;

use crate::buffer::Buffer;
use crate::descriptor_set::spec_set_shape;
use crate::descriptor_set::DescriptorSet;
use crate::descriptor_set::DescriptorSetLayoutBinding;
use crate::device::Device;
use crate::enums::DescriptorType;
use crate::enums::ImageLayout;
use crate::enums::DESCRIPTOR_TYPE_COMBINED_IMAGE_SAMPLER;
use crate::enums::DESCRIPTOR_TYPE_INPUT_ATTACHMENT;
use crate::enums::DESCRIPTOR_TYPE_SAMPLED_IMAGE;
use crate::enums::DESCRIPTOR_TYPE_SAMPLER;
use crate::enums::DESCRIPTOR_TYPE_STORAGE_BUFFER;
use crate::enums::DESCRIPTOR_TYPE_STORAGE_BUFFER_DYNAMIC;
use crate::enums::DESCRIPTOR_TYPE_STORAGE_IMAGE;
use crate::enums::DESCRIPTOR_TYPE_UNIFORM_BUFFER;
use crate::enums::DESCRIPTOR_TYPE_UNIFORM_BUFFER_DYNAMIC;
use crate::error::Error;
use crate::image::ImageView;
use crate::sampler::Sampler;

verus! {

/// The buffer range a buffer descriptor is written with.  A range of
/// `None` stands for the rest of the buffer.
#[derive(Clone, Copy, Debug, PartialEq, Eq, Structural)]
pub struct DescriptorBufferInfo {
    pub buffer: Buffer,
    pub offset: u64,
    pub range: Option<u64>,
}

/// The image view and layout an image descriptor is written with.
#[derive(Clone, Copy, Debug, PartialEq, Eq, Structural)]
pub struct DescriptorImageInfo {
    pub image_view: ImageView,
    pub image_layout: ImageLayout,
}

/// The first slot at or after position (`binding`, `element`) of the
/// cursor that walks a layout's slots in order, or `None` if the cursor
/// runs past the last binding.  An element index past a binding's
/// descriptor count carries over into the following bindings.
pub open spec fn spec_norm(
    bindings: Seq<DescriptorSetLayoutBinding>,
    binding: int,
    element: int,
) -> Option<(int, int)>
    decreases bindings.len() - binding,
{
    if binding < 0 || binding >= bindings.len() {
        None
    } else if element < bindings[binding].descriptor_count {
        Some((binding, element))
    } else {
        spec_norm(bindings, binding + 1, element - bindings[binding].descriptor_count)
    }
}

/// The slot the `k`-th write lands in, starting at position
/// (`b0`, `e0`), or `None` if the cursor runs past the last binding.
pub open spec fn spec_slot(
    bindings: Seq<DescriptorSetLayoutBinding>,
    b0: int,
    e0: int,
    k: nat,
) -> Option<(int, int)>
    decreases k,
{
    if k == 0 {
        spec_norm(bindings, b0, e0)
    } else {
        match spec_slot(bindings, b0, e0, (k - 1) as nat) {
            None => None,
            Some(p) => spec_norm(bindings, p.0, p.1 + 1),
        }
    }
}

/// True if the first `n` writes starting at (`b0`, `e0`) all land in a
/// slot.
pub open spec fn spec_slots_exist(
    bindings: Seq<DescriptorSetLayoutBinding>,
    b0: int,
    e0: int,
    n: nat,
) -> bool {
    forall|k: nat| k < n ==> (#[trigger] spec_slot(bindings, b0, e0, k)) is Some
}

/// True if every slot the first `n` writes land in declares descriptor
/// type `ty`.
pub open spec fn spec_slots_typed(
    bindings: Seq<DescriptorSetLayoutBinding>,
    b0: int,
    e0: int,
    n: nat,
    ty: DescriptorType,
) -> bool {
    forall|k: nat|
        k < n ==> match #[trigger] spec_slot(bindings, b0, e0, k) {
            Some(p) => bindings[p.0].descriptor_type == ty,
            None => true,
        }
}

/// True if the `k`-th of the first `n` writes lands in slot (`i`, `j`).
pub open spec fn spec_written(
    bindings: Seq<DescriptorSetLayoutBinding>,
    b0: int,
    e0: int,
    n: nat,
    i: int,
    j: int,
) -> bool {
    exists|k: nat| k < n && #[trigger] spec_slot(bindings, b0, e0, k) == Some((i, j))
}

/// Once the cursor has run out, it stays out.
proof fn lemma_slot_none_stays(
    bindings: Seq<DescriptorSetLayoutBinding>,
    b0: int,
    e0: int,
    k1: nat,
    k2: nat,
)
    requires
        k1 <= k2,
        spec_slot(bindings, b0, e0, k1) is None,
    ensures
        spec_slot(bindings, b0, e0, k2) is None,
    decreases k2,
{
    if k2 > k1 {
        lemma_slot_none_stays(bindings, b0, e0, k1, (k2 - 1) as nat);
    }
}

/// Resolves the slots the first `n` writes of type `ty` starting at
/// (`dst_binding`, `dst_array_element`) land in.  A write past the last
/// binding is `OutOfBounds`; a slot of another declared type is
/// `InvalidArgument`.
#[verifier::loop_isolation(false)]
fn resolve_slots(
    bindings: &Vec<DescriptorSetLayoutBinding>,
    dst_binding: u32,
    dst_array_element: u32,
    n: usize,
    ty: DescriptorType,
) -> (r: Result<Vec<(usize, usize)>, Error>)
    ensures
        r is Ok <==> spec_slots_exist(bindings@, dst_binding as int, dst_array_element as int, n as nat)
            && spec_slots_typed(bindings@, dst_binding as int, dst_array_element as int, n as nat, ty),
        r is Err && r->Err_0 == Error::InvalidArgument <==> !spec_slots_typed(
            bindings@,
            dst_binding as int,
            dst_array_element as int,
            n as nat,
            ty,
        ),
        r is Err && r->Err_0 == Error::OutOfBounds <==> spec_slots_typed(
            bindings@,
            dst_binding as int,
            dst_array_element as int,
            n as nat,
            ty,
        ) && !spec_slots_exist(bindings@, dst_binding as int, dst_array_element as int, n as nat),
        r is Ok ==> {
            let positions = r->Ok_0;
            &&& positions.len() == n
            &&& forall|k: int|
                0 <= k < n ==> spec_slot(
                    bindings@,
                    dst_binding as int,
                    dst_array_element as int,
                    k as nat,
                ) == Some(
                    ((#[trigger] positions[k]).0 as int, positions[k].1 as int),
                )
            &&& forall|k: int|
                0 <= k < n ==> (#[trigger] positions[k]).0 < bindings.len() && positions[k].1
                    < bindings[positions[k].0 as int].descriptor_count
        },
{
    let ghost b0 = dst_binding as int;
    let ghost e0 = dst_array_element as int;
    let mut positions: Vec<(usize, usize)> = Vec::new();
    let mut binding: usize = dst_binding as usize;
    let mut element: u64 = dst_array_element as u64;
    let mut k: usize = 0;
    while k < n
        invariant
            k <= n,
            positions.len() == k,
            element <= u32::MAX as u64 + 1,
            forall|j: int|
                0 <= j < k ==> spec_slot(bindings@, b0, e0, j as nat) == Some(
                    ((#[trigger] positions[j]).0 as int, positions[j].1 as int),
                ),
            forall|j: int|
                0 <= j < k ==> (#[trigger] positions[j]).0 < bindings.len() && positions[j].1
                    < bindings[positions[j].0 as int].descriptor_count,
            forall|j: int|
                0 <= j < k ==> bindings[(#[trigger] positions[j]).0 as int].descriptor_type == ty,
            spec_slot(bindings@, b0, e0, k as nat) == spec_norm(
                bindings@,
                binding as int,
                element as int,
            ),
        decreases n - k,
    {
        while binding < bindings.len() && element >= bindings[binding].descriptor_count as u64
            invariant
                spec_slot(bindings@, b0, e0, k as nat) == spec_norm(
                    bindings@,
                    binding as int,
                    element as int,
                ),
                element <= u32::MAX as u64 + 1,
            decreases bindings.len() - binding,
        {
            element = element - bindings[binding].descriptor_count as u64;
            binding = binding + 1;
        }
        if binding >= bindings.len() {
            proof {
                assert(spec_slot(bindings@, b0, e0, k as nat) is None);
                assert(!spec_slots_exist(bindings@, b0, e0, n as nat));
                assert forall|j: nat| j < n implies match #[trigger] spec_slot(
                    bindings@,
                    b0,
                    e0,
                    j,
                ) {
                    Some(p) => bindings@[p.0].descriptor_type == ty,
                    None => true,
                } by {
                    if spec_slot(bindings@, b0, e0, j) is Some {
                        if j >= k {
                            lemma_slot_none_stays(bindings@, b0, e0, k as nat, j);
                        } else {
                            assert(spec_slot(bindings@, b0, e0, j) == Some(
                                ((#[trigger] positions[j as int]).0 as int,
                                positions[j as int].1 as int),
                            ));
                            assert(bindings[positions[j as int].0 as int].descriptor_type == ty);
                        }
                    }
                }
            }
            return Err(Error::OutOfBounds);
        }
        proof {
            assert(spec_slot(bindings@, b0, e0, k as nat) == Some(
                (binding as int, element as int),
            ));
        }
        if bindings[binding].descriptor_type != ty {
            proof {
                assert(!spec_slots_typed(bindings@, b0, e0, n as nat, ty)) by {
                    assert(spec_slot(bindings@, b0, e0, k as nat) == Some(
                        (binding as int, element as int),
                    ));
                }
            }
            return Err(Error::InvalidArgument);
        }
        positions.push((binding, element as usize));
        element = element + 1;
        k = k + 1;
    }
    proof {
        assert forall|j: nat| j < n implies (#[trigger] spec_slot(bindings@, b0, e0, j))
            is Some by {
            assert(spec_slot(bindings@, b0, e0, j) == Some(
                ((positions[j as int]).0 as int, positions[j as int].1 as int),
            ));
        }
        assert forall|j: nat| j < n implies match #[trigger] spec_slot(bindings@, b0, e0, j) {
            Some(p) => bindings@[p.0].descriptor_type == ty,
            None => true,
        } by {
            assert(spec_slot(bindings@, b0, e0, j) == Some(
                ((positions[j as int]).0 as int, positions[j as int].1 as int),
            ));
        }
    }
    Ok(positions)
}

/// Marks each listed slot of the written-flag table.
#[verifier::loop_isolation(false)]
fn mark_slots(inited: &mut Vec<Vec<bool>>, positions: &Vec<(usize, usize)>)
    requires
        forall|k: int|
            0 <= k < positions.len() ==> (#[trigger] positions[k]).0 < old(inited).len()
                && positions[k].1 < old(inited)@[positions[k].0 as int].len(),
    ensures
        final(inited).len() == old(inited).len(),
        forall|i: int|
            0 <= i < old(inited).len() ==> (#[trigger] final(inited)@[i]).len() == old(
                inited,
            )@[i].len(),
        forall|i: int, j: int|
            0 <= i < old(inited).len() && 0 <= j < old(inited)@[i].len()
                ==> #[trigger] final(inited)@[i][j] == (old(inited)@[i][j] || exists|k: int|
                0 <= k < positions.len() && (#[trigger] positions[k]) == (i as usize, j as usize)),
{
    let mut t: usize = 0;
    while t < positions.len()
        invariant
            t <= positions.len(),
            inited.len() == old(inited).len(),
            forall|i: int|
                0 <= i < old(inited).len() ==> (#[trigger] inited@[i]).len() == old(
                    inited,
                )@[i].len(),
            forall|i: int, j: int|
                0 <= i < old(inited).len() && 0 <= j < old(inited)@[i].len()
                    ==> #[trigger] inited@[i][j] == (old(inited)@[i][j] || exists|k: int|
                    0 <= k < t && (#[trigger] positions[k]) == (i as usize, j as usize)),
        decreases positions.len() - t,
    {
        let (b, e) = positions[t];
        let ghost pre = inited@;
        let row = &mut inited[b];
        row.set(e, true);
        proof {
            assert forall|i: int, j: int|
                0 <= i < old(inited).len() && 0 <= j < old(inited)@[i].len() implies #[trigger] inited@[i][j]
                == (old(inited)@[i][j] || exists|k: int|
                0 <= k < t + 1 && (#[trigger] positions[k]) == (i as usize, j as usize)) by {
                if i == b as int && j == e as int {
                    assert(positions[t as int] == (i as usize, j as usize));
                    assert(inited@[i][j]);
                } else {
                    assert(inited@[i][j] == pre[i][j]);
                    if inited@[i][j] {
                        if !old(inited)@[i][j] {
                            let k = choose|k: int|
                                0 <= k < t && (#[trigger] positions[k]) == (
                                i as usize,
                                j as usize,
                                );
                            assert(0 <= k < t + 1 && positions[k] == (i as usize, j as usize));
                        }
                    } else {
                        assert forall|k: int|
                            0 <= k < t + 1 implies (#[trigger] positions[k]) != (
                            i as usize,
                            j as usize,
                        ) by {
                            if k == t {
                                assert(positions[t as int] == (b, e));
                            }
                        }
                    }
                }
            }
        }
        t = t + 1;
    }
}

/// Prepares updates of descriptor sets of one device.
#[derive(Debug)]
pub struct DescriptorSetUpdateBuilder {
    /// The identity of the device whose sets may be updated.
    pub device: u64,
}

impl DescriptorSetUpdateBuilder {
    /// Creates a builder for updates of sets of `device`.
    pub fn new(device: &Device) -> (r: Self)
        ensures
            r.device == device.id,
    {
        DescriptorSetUpdateBuilder { device: device.id }
    }

    /// Starts updating `set`.  The update owns the set until
    /// [`DescriptorSetUpdate::end`] hands it back.
    pub fn dst_set(&self, set: DescriptorSet) -> (r: DescriptorSetUpdate)
        requires
            set.device == self.device,
        ensures
            r.set == set,
    {
        DescriptorSetUpdate { set }
    }
}

/// An update of one descriptor set.  Each write checks its destination
/// slots and the written resources, and marks the slots written; a failed
/// write changes nothing.
#[derive(Debug)]
pub struct DescriptorSetUpdate {
    pub set: DescriptorSet,
}

/// True if some buffer of `buffers` declares a range over `max_range`.
pub open spec fn spec_range_over(buffers: Seq<DescriptorBufferInfo>, max_range: u64) -> bool {
    exists|k: int|
        0 <= k < buffers.len() && (#[trigger] buffers[k]).range is Some && buffers[k].range->0
            > max_range
}

/// True if some buffer of `buffers` lacks the usage bit `ty` requires.
pub open spec fn spec_buffer_usage_missing(buffers: Seq<DescriptorBufferInfo>, ty: DescriptorType) -> bool {
    exists|k: int|
        0 <= k < buffers.len() && !(ty.spec_required_buffer_usage() != 0 && (
        #[trigger] buffers[k]).buffer.inner.usage.0 & ty.spec_required_buffer_usage() != 0)
}

/// True if the first `n` images all carry the usage bit `ty` requires.
pub open spec fn spec_images_usage_ok_upto(
    images: Seq<DescriptorImageInfo>,
    ty: DescriptorType,
    n: int,
) -> bool {
    forall|k: int|
        0 <= k < n ==> (ty.spec_required_image_usage() != 0 && (
        #[trigger] images[k]).image_view.image.inner.usage.0 & ty.spec_required_image_usage() != 0)
}

/// True if some image of `images` lacks the usage bit `ty` requires.
pub open spec fn spec_image_usage_missing(images: Seq<DescriptorImageInfo>, ty: DescriptorType) -> bool {
    !spec_images_usage_ok_upto(images, ty, images.len() as int)
}

/// The failure, if any, of a buffer write of type `ty`: a slot of another
/// type is `InvalidArgument`; a write past the last binding is
/// `OutOfBounds`; a range over the device limit is `LimitExceeded`; a
/// buffer without the required usage is `InvalidArgument`.
pub open spec fn spec_buffer_write_error(
    bindings: Seq<DescriptorSetLayoutBinding>,
    b0: int,
    e0: int,
    buffers: Seq<DescriptorBufferInfo>,
    max_range: u64,
    ty: DescriptorType,
) -> Option<Error> {
    if !spec_slots_typed(bindings, b0, e0, buffers.len() as nat, ty) {
        Some(Error::InvalidArgument)
    } else if !spec_slots_exist(bindings, b0, e0, buffers.len() as nat) {
        Some(Error::OutOfBounds)
    } else if spec_range_over(buffers, max_range) {
        Some(Error::LimitExceeded)
    } else if spec_buffer_usage_missing(buffers, ty) {
        Some(Error::InvalidArgument)
    } else {
        None
    }
}

/// The failure, if any, of an image write of type `ty`.
pub open spec fn spec_image_write_error(
    bindings: Seq<DescriptorSetLayoutBinding>,
    b0: int,
    e0: int,
    images: Seq<DescriptorImageInfo>,
    ty: DescriptorType,
    check_usage: bool,
) -> Option<Error> {
    if !spec_slots_typed(bindings, b0, e0, images.len() as nat, ty) {
        Some(Error::InvalidArgument)
    } else if !spec_slots_exist(bindings, b0, e0, images.len() as nat) {
        Some(Error::OutOfBounds)
    } else if check_usage && spec_image_usage_missing(images, ty) {
        Some(Error::InvalidArgument)
    } else {
        None
    }
}

/// What a successful write leaves of the set: the slots the writes land
/// in are marked written, and everything else is unchanged.
pub open spec fn spec_updated_set(
    old_set: DescriptorSet,
    new_set: DescriptorSet,
    b0: int,
    e0: int,
    n: nat,
) -> bool {
    &&& new_set.handle == old_set.handle
    &&& new_set.device == old_set.device
    &&& new_set.pool == old_set.pool
    &&& new_set.layout == old_set.layout
    &&& new_set.inited.len() == old_set.inited.len()
    &&& forall|i: int|
        0 <= i < old_set.inited.len() ==> (#[trigger] new_set.inited[i]).len()
            == old_set.inited[i].len()
    &&& forall|i: int, j: int|
        0 <= i < old_set.inited.len() && 0 <= j < old_set.inited[i].len()
            ==> #[trigger] new_set.inited[i][j] == (old_set.inited[i][j] || spec_written(
            old_set.layout.bindings@,
            b0,
            e0,
            n,
            i,
            j,
        ))
}

impl DescriptorSetUpdate {
    /// Hands the set back.
    pub fn end(self) -> (r: DescriptorSet)
        ensures
            r == self.set,
    {
        self.set
    }

    /// Writes `positions`-resolved slots and proves the update relation.
    #[verifier::loop_isolation(false)]
    fn commit(&mut self, positions: Vec<(usize, usize)>, Ghost(b0): Ghost<int>, Ghost(e0): Ghost<
        int,
    >, Ghost(n): Ghost<nat>)
        requires
            spec_set_shape(old(self).set),
            positions.len() == n,
            forall|k: int|
                0 <= k < positions.len() ==> spec_slot(
                    old(self).set.layout.bindings@,
                    b0,
                    e0,
                    k as nat,
                ) == Some(((#[trigger] positions[k]).0 as int, positions[k].1 as int)),
            forall|k: int|
                0 <= k < positions.len() ==> (#[trigger] positions[k]).0
                    < old(self).set.layout.bindings.len() && positions[k].1
                    < old(self).set.layout.bindings[positions[k].0 as int].descriptor_count,
        ensures
            spec_updated_set(old(self).set, final(self).set, b0, e0, n),
            spec_set_shape(final(self).set),
    {
        proof {
            assert forall|k: int|
                0 <= k < positions.len() implies (#[trigger] positions[k]).0
                < self.set.inited.len() && positions[k].1 < self.set.inited@[positions[k].0 as int].len() by {
                assert(self.set.inited[positions[k].0 as int].len()
                    == self.set.layout.bindings[positions[k].0 as int].descriptor_count);
            }
        }
        let ghost old_set = self.set;
        mark_slots(&mut self.set.inited, &positions);
        proof {
            assert forall|i: int, j: int|
                0 <= i < old_set.inited.len() && 0 <= j < old_set.inited[i].len() implies #[trigger] self.set.inited[i][j]
                == (old_set.inited[i][j] || spec_written(
                old_set.layout.bindings@,
                b0,
                e0,
                n,
                i,
                j,
            )) by {
                if self.set.inited[i][j] && !old_set.inited[i][j] {
                    let k = choose|k: int|
                        0 <= k < positions.len() && (#[trigger] positions[k]) == (
                        i as usize,
                        j as usize,
                        );
                    assert(spec_slot(old_set.layout.bindings@, b0, e0, k as nat) == Some((i, j)));
                    assert(spec_written(old_set.layout.bindings@, b0, e0, n, i, j));
                }
                if !self.set.inited[i][j] {
                    if spec_written(old_set.layout.bindings@, b0, e0, n, i, j) {
                        let k = choose|k: nat|
                            k < n && #[trigger] spec_slot(old_set.layout.bindings@, b0, e0, k)
                                == Some((i, j));
                        assert(positions[k as int] == (i as usize, j as usize));
                        assert(exists|m: int|
                            0 <= m < positions.len() && (#[trigger] positions[m]) == (
                            i as usize,
                            j as usize,
                            ));
                    }
                }
            }
        }
    }

    /// Writes buffer descriptors of type `ty` into consecutive slots.
    #[verifier::loop_isolation(false)]
    fn buffers_impl(
        &mut self,
        device: &Device,
        dst_binding: u32,
        dst_array_element: u32,
        buffers: &Vec<DescriptorBufferInfo>,
        max_range: u64,
        ty: DescriptorType,
    ) -> (r: Result<(), Error>)
        requires
            spec_set_shape(old(self).set),
            device.id == old(self).set.device,
            forall|k: int|
                0 <= k < buffers.len() ==> (#[trigger] buffers[k]).buffer.inner.device == old(
                    self,
                ).set.device,
        ensures
            r is Err <==> spec_buffer_write_error(
                old(self).set.layout.bindings@,
                dst_binding as int,
                dst_array_element as int,
                buffers@,
                max_range,
                ty,
            ) is Some,
            r is Err ==> Some(r->Err_0) == spec_buffer_write_error(
                old(self).set.layout.bindings@,
                dst_binding as int,
                dst_array_element as int,
                buffers@,
                max_range,
                ty,
            ) && *final(self) == *old(self),
            r is Ok ==> spec_updated_set(
                old(self).set,
                final(self).set,
                dst_binding as int,
                dst_array_element as int,
                buffers@.len() as nat,
            ),
            spec_set_shape(final(self).set),
    {
        let positions = match resolve_slots(
            &self.set.layout.bindings,
            dst_binding,
            dst_array_element,
            buffers.len(),
            ty,
        ) {
            Ok(p) => p,
            Err(e) => {
                return Err(e);
            },
        };
        let mut k: usize = 0;
        while k < buffers.len()
            invariant
                k <= buffers.len(),
                forall|j: int|
                    0 <= j < k ==> !((#[trigger] buffers[j]).range is Some && buffers[j].range->0
                        > max_range),
            decreases buffers.len() - k,
        {
            match buffers[k].range {
                Some(range) => {
                    if range > max_range {
                        proof {
                            assert((#[trigger] buffers@[k as int]).range is Some
                                && buffers@[k as int].range->0 > max_range);
                            assert(spec_range_over(buffers@, max_range));
                        }
                        return Err(Error::LimitExceeded);
                    }
                },
                None => {},
            }
            k = k + 1;
        }
        let mut k: usize = 0;
        while k < buffers.len()
            invariant
                k <= buffers.len(),
                forall|j: int|
                    0 <= j < k ==> (ty.spec_required_buffer_usage() != 0 && (
                    #[trigger] buffers[j]).buffer.inner.usage.0 & ty.spec_required_buffer_usage()
                        != 0),
            decreases buffers.len() - k,
        {
            if !ty.supports_buffer_usage(buffers[k].buffer.usage()) {
                proof {
                    assert(!(ty.spec_required_buffer_usage() != 0 && (
                    #[trigger] buffers@[k as int]).buffer.inner.usage.0
                        & ty.spec_required_buffer_usage() != 0));
                    assert(spec_buffer_usage_missing(buffers@, ty));
                }
                return Err(Error::InvalidArgument);
            }
            k = k + 1;
        }
        self.commit(
            positions,
            Ghost(dst_binding as int),
            Ghost(dst_array_element as int),
            Ghost(buffers@.len() as nat),
        );
        Ok(())
    }

    /// Writes uniform-buffer descriptors.  The destination slots must
    /// declare uniform buffers, each buffer must carry the uniform-buffer
    /// usage, and each declared range must stay within the device's
    /// uniform-buffer limit.
    pub fn uniform_buffers(
        &mut self,
        device: &Device,
        dst_binding: u32,
        dst_array_element: u32,
        buffers: &Vec<DescriptorBufferInfo>,
    ) -> (r: Result<(), Error>)
        requires
            spec_set_shape(old(self).set),
            device.id == old(self).set.device,
            forall|k: int|
                0 <= k < buffers.len() ==> (#[trigger] buffers[k]).buffer.inner.device == old(
                    self,
                ).set.device,
        ensures
            r is Err <==> spec_buffer_write_error(
                old(self).set.layout.bindings@,
                dst_binding as int,
                dst_array_element as int,
                buffers@,
                device.limits.max_uniform_buffer_range as u64,
                DescriptorType(DESCRIPTOR_TYPE_UNIFORM_BUFFER),
            ) is Some,
            r is Err ==> Some(r->Err_0) == spec_buffer_write_error(
                old(self).set.layout.bindings@,
                dst_binding as int,
                dst_array_element as int,
                buffers@,
                device.limits.max_uniform_buffer_range as u64,
                DescriptorType(DESCRIPTOR_TYPE_UNIFORM_BUFFER),
            ) && *final(self) == *old(self),
            r is Ok ==> spec_updated_set(
                old(self).set,
                final(self).set,
                dst_binding as int,
                dst_array_element as int,
                buffers@.len() as nat,
            ),
            spec_set_shape(final(self).set),
    {
        let max_range = device.limits().max_uniform_buffer_range as u64;
        self.buffers_impl(
            device,
            dst_binding,
            dst_array_element,
            buffers,
            max_range,
            DescriptorType(DESCRIPTOR_TYPE_UNIFORM_BUFFER),
        )
    }

    /// Writes storage-buffer descriptors.
    pub fn storage_buffers(
        &mut self,
        device: &Device,
        dst_binding: u32,
        dst_array_element: u32,
        buffers: &Vec<DescriptorBufferInfo>,
    ) -> (r: Result<(), Error>)
        requires
            spec_set_shape(old(self).set),
            device.id == old(self).set.device,
            forall|k: int|
                0 <= k < buffers.len() ==> (#[trigger] buffers[k]).buffer.inner.device == old(
                    self,
                ).set.device,
        ensures
            r is Err <==> spec_buffer_write_error(
                old(self).set.layout.bindings@,
                dst_binding as int,
                dst_array_element as int,
                buffers@,
                device.limits.max_storage_buffer_range as u64,
                DescriptorType(DESCRIPTOR_TYPE_STORAGE_BUFFER),
            ) is Some,
            r is Err ==> Some(r->Err_0) == spec_buffer_write_error(
                old(self).set.layout.bindings@,
                dst_binding as int,
                dst_array_element as int,
                buffers@,
                device.limits.max_storage_buffer_range as u64,
                DescriptorType(DESCRIPTOR_TYPE_STORAGE_BUFFER),
            ) && *final(self) == *old(self),
            r is Ok ==> spec_updated_set(
                old(self).set,
                final(self).set,
                dst_binding as int,
                dst_array_element as int,
                buffers@.len() as nat,
            ),
            spec_set_shape(final(self).set),
    {
        let max_range = device.limits().max_storage_buffer_range as u64;
        self.buffers_impl(
            device,
            dst_binding,
            dst_array_element,
            buffers,
            max_range,
            DescriptorType(DESCRIPTOR_TYPE_STORAGE_BUFFER),
        )
    }

    /// Writes dynamic uniform-buffer descriptors.
    pub fn uniform_buffers_dynamic(
        &mut self,
        device: &Device,
        dst_binding: u32,
        dst_array_element: u32,
        buffers: &Vec<DescriptorBufferInfo>,
    ) -> (r: Result<(), Error>)
        requires
            spec_set_shape(old(self).set),
            device.id == old(self).set.device,
            forall|k: int|
                0 <= k < buffers.len() ==> (#[trigger] buffers[k]).buffer.inner.device == old(
                    self,
                ).set.device,
        ensures
            r is Err <==> spec_buffer_write_error(
                old(self).set.layout.bindings@,
                dst_binding as int,
                dst_array_element as int,
                buffers@,
                device.limits.max_uniform_buffer_range as u64,
                DescriptorType(DESCRIPTOR_TYPE_UNIFORM_BUFFER_DYNAMIC),
            ) is Some,
            r is Err ==> Some(r->Err_0) == spec_buffer_write_error(
                old(self).set.layout.bindings@,
                dst_binding as int,
                dst_array_element as int,
                buffers@,
                device.limits.max_uniform_buffer_range as u64,
                DescriptorType(DESCRIPTOR_TYPE_UNIFORM_BUFFER_DYNAMIC),
            ) && *final(self) == *old(self),
            r is Ok ==> spec_updated_set(
                old(self).set,
                final(self).set,
                dst_binding as int,
                dst_array_element as int,
                buffers@.len() as nat,
            ),
            spec_set_shape(final(self).set),
    {
        let max_range = device.limits().max_uniform_buffer_range as u64;
        self.buffers_impl(
            device,
            dst_binding,
            dst_array_element,
            buffers,
            max_range,
            DescriptorType(DESCRIPTOR_TYPE_UNIFORM_BUFFER_DYNAMIC),
        )
    }

    /// Writes dynamic storage-buffer descriptors.
    pub fn storage_buffers_dynamic(
        &mut self,
        device: &Device,
        dst_binding: u32,
        dst_array_element: u32,
        buffers: &Vec<DescriptorBufferInfo>,
    ) -> (r: Result<(), Error>)
        requires
            spec_set_shape(old(self).set),
            device.id == old(self).set.device,
            forall|k: int|
                0 <= k < buffers.len() ==> (#[trigger] buffers[k]).buffer.inner.device == old(
                    self,
                ).set.device,
        ensures
            r is Err <==> spec_buffer_write_error(
                old(self).set.layout.bindings@,
                dst_binding as int,
                dst_array_element as int,
                buffers@,
                device.limits.max_storage_buffer_range as u64,
                DescriptorType(DESCRIPTOR_TYPE_STORAGE_BUFFER_DYNAMIC),
            ) is Some,
            r is Err ==> Some(r->Err_0) == spec_buffer_write_error(
                old(self).set.layout.bindings@,
                dst_binding as int,
                dst_array_element as int,
                buffers@,
                device.limits.max_storage_buffer_range as u64,
                DescriptorType(DESCRIPTOR_TYPE_STORAGE_BUFFER_DYNAMIC),
            ) && *final(self) == *old(self),
            r is Ok ==> spec_updated_set(
                old(self).set,
                final(self).set,
                dst_binding as int,
                dst_array_element as int,
                buffers@.len() as nat,
            ),
            spec_set_shape(final(self).set),
    {
        let max_range = device.limits().max_storage_buffer_range as u64;
        self.buffers_impl(
            device,
            dst_binding,
            dst_array_element,
            buffers,
            max_range,
            DescriptorType(DESCRIPTOR_TYPE_STORAGE_BUFFER_DYNAMIC),
        )
    }

    /// Writes sampler descriptors.  The destination slots must declare
    /// samplers and must not carry immutable samplers.
    #[verifier::loop_isolation(false)]
    pub fn samplers(
        &mut self,
        dst_binding: u32,
        dst_array_element: u32,
        samplers: &Vec<Sampler>,
    ) -> (r: Result<(), Error>)
        requires
            spec_set_shape(old(self).set),
            forall|k: int|
                0 <= k < samplers.len() ==> (#[trigger] samplers[k]).device == old(
                    self,
                ).set.device,
        ensures
            r is Err <==> spec_sampler_write_error(
                old(self).set.layout.bindings@,
                dst_binding as int,
                dst_array_element as int,
                samplers@.len() as nat,
            ) is Some,
            r is Err ==> Some(r->Err_0) == spec_sampler_write_error(
                old(self).set.layout.bindings@,
                dst_binding as int,
                dst_array_element as int,
                samplers@.len() as nat,
            ) && *final(self) == *old(self),
            r is Ok ==> spec_updated_set(
                old(self).set,
                final(self).set,
                dst_binding as int,
                dst_array_element as int,
                samplers@.len() as nat,
            ),
            spec_set_shape(final(self).set),
    {
        let ty = DescriptorType(DESCRIPTOR_TYPE_SAMPLER);
        let positions = match resolve_slots(
            &self.set.layout.bindings,
            dst_binding,
            dst_array_element,
            samplers.len(),
            ty,
        ) {
            Ok(p) => p,
            Err(e) => {
                return Err(e);
            },
        };
        let mut k: usize = 0;
        while k < positions.len()
            invariant
                k <= positions.len(),
                forall|j: int|
                    0 <= j < k ==> self.set.layout.bindings[(
                    #[trigger] positions[j]).0 as int].immutable_samplers@.len() == 0,
            decreases positions.len() - k,
        {
            let (b, _) = positions[k];
            if self.set.layout.bindings[b].immutable_samplers.len() > 0 {
                proof {
                    assert(spec_slot(
                        self.set.layout.bindings@,
                        dst_binding as int,
                        dst_array_element as int,
                        k as nat,
                    ) == Some((positions[k as int].0 as int, positions[k as int].1 as int)));
                }
                return Err(Error::InvalidArgument);
            }
            k = k + 1;
        }
        proof {
            assert forall|k: nat| k < samplers@.len() implies match #[trigger] spec_slot(
                self.set.layout.bindings@,
                dst_binding as int,
                dst_array_element as int,
                k,
            ) {
                Some(p) => self.set.layout.bindings@[p.0].immutable_samplers@.len() == 0,
                None => true,
            } by {
                assert(spec_slot(
                    self.set.layout.bindings@,
                    dst_binding as int,
                    dst_array_element as int,
                    k,
                ) == Some(((positions[k as int]).0 as int, positions[k as int].1 as int)));
            }
        }
        self.commit(
            positions,
            Ghost(dst_binding as int),
            Ghost(dst_array_element as int),
            Ghost(samplers@.len() as nat),
        );
        Ok(())
    }

    /// Writes image descriptors of type `ty` into consecutive slots.
    #[verifier::loop_isolation(false)]
    fn images_impl(
        &mut self,
        dst_binding: u32,
        dst_array_element: u32,
        images: &Vec<DescriptorImageInfo>,
        ty: DescriptorType,
    ) -> (r: Result<(), Error>)
        requires
            spec_set_shape(old(self).set),
            forall|k: int|
                0 <= k < images.len() ==> (#[trigger] images[k]).image_view.image.inner.device == old(
                    self,
                ).set.device,
        ensures
            r is Err <==> spec_image_write_error(
                old(self).set.layout.bindings@,
                dst_binding as int,
                dst_array_element as int,
                images@,
                ty,
                true,
            ) is Some,
            r is Err ==> Some(r->Err_0) == spec_image_write_error(
                old(self).set.layout.bindings@,
                dst_binding as int,
                dst_array_element as int,
                images@,
                ty,
                true,
            ) && *final(self) == *old(self),
            r is Ok ==> spec_updated_set(
                old(self).set,
                final(self).set,
                dst_binding as int,
                dst_array_element as int,
                images@.len() as nat,
            ),
            spec_set_shape(final(self).set),
    {
        let positions = match resolve_slots(
            &self.set.layout.bindings,
            dst_binding,
            dst_array_element,
            images.len(),
            ty,
        ) {
            Ok(p) => p,
            Err(e) => {
                return Err(e);
            },
        };
        let mut k: usize = 0;
        while k < images.len()
            invariant
                k <= images.len(),
                spec_images_usage_ok_upto(images@, ty, k as int),
            decreases images.len() - k,
        {
            if !ty.supports_image_usage(images[k].image_view.image().usage()) {
                proof {
                    assert(!(ty.spec_required_image_usage() != 0 && (
                    #[trigger] images@[k as int]).image_view.image.inner.usage.0
                        & ty.spec_required_image_usage() != 0));
                    assert(!spec_images_usage_ok_upto(images@, ty, images@.len() as int));
                }
                return Err(Error::InvalidArgument);
            }
            k = k + 1;
        }
        proof {
            assert(!spec_image_usage_missing(images@, ty));
        }
        self.commit(
            positions,
            Ghost(dst_binding as int),
            Ghost(dst_array_element as int),
            Ghost(images@.len() as nat),
        );
        Ok(())
    }

    /// Writes sampled-image descriptors.
    pub fn sampled_images(
        &mut self,
        dst_binding: u32,
        dst_array_element: u32,
        images: &Vec<DescriptorImageInfo>,
    ) -> (r: Result<(), Error>)
        requires
            spec_set_shape(old(self).set),
            forall|k: int|
                0 <= k < images.len() ==> (#[trigger] images[k]).image_view.image.inner.device == old(
                    self,
                ).set.device,
        ensures
            r is Err <==> spec_image_write_error(
                old(self).set.layout.bindings@,
                dst_binding as int,
                dst_array_element as int,
                images@,
                DescriptorType(DESCRIPTOR_TYPE_SAMPLED_IMAGE),
                true,
            ) is Some,
            r is Err ==> Some(r->Err_0) == spec_image_write_error(
                old(self).set.layout.bindings@,
                dst_binding as int,
                dst_array_element as int,
                images@,
                DescriptorType(DESCRIPTOR_TYPE_SAMPLED_IMAGE),
                true,
            ) && *final(self) == *old(self),
            r is Ok ==> spec_updated_set(
                old(self).set,
                final(self).set,
                dst_binding as int,
                dst_array_element as int,
                images@.len() as nat,
            ),
            spec_set_shape(final(self).set),
    {
        self.images_impl(
            dst_binding,
            dst_array_element,
            images,
            DescriptorType(DESCRIPTOR_TYPE_SAMPLED_IMAGE),
        )
    }

    /// Writes storage-image descriptors.
    pub fn storage_images(
        &mut self,
        dst_binding: u32,
        dst_array_element: u32,
        images: &Vec<DescriptorImageInfo>,
    ) -> (r: Result<(), Error>)
        requires
            spec_set_shape(old(self).set),
            forall|k: int|
                0 <= k < images.len() ==> (#[trigger] images[k]).image_view.image.inner.device == old(
                    self,
                ).set.device,
        ensures
            r is Err <==> spec_image_write_error(
                old(self).set.layout.bindings@,
                dst_binding as int,
                dst_array_element as int,
                images@,
                DescriptorType(DESCRIPTOR_TYPE_STORAGE_IMAGE),
                true,
            ) is Some,
            r is Err ==> Some(r->Err_0) == spec_image_write_error(
                old(self).set.layout.bindings@,
                dst_binding as int,
                dst_array_element as int,
                images@,
                DescriptorType(DESCRIPTOR_TYPE_STORAGE_IMAGE),
                true,
            ) && *final(self) == *old(self),
            r is Ok ==> spec_updated_set(
                old(self).set,
                final(self).set,
                dst_binding as int,
                dst_array_element as int,
                images@.len() as nat,
            ),
            spec_set_shape(final(self).set),
    {
        self.images_impl(
            dst_binding,
            dst_array_element,
            images,
            DescriptorType(DESCRIPTOR_TYPE_STORAGE_IMAGE),
        )
    }

    /// Writes input-attachment descriptors.
    pub fn input_attachments(
        &mut self,
        dst_binding: u32,
        dst_array_element: u32,
        images: &Vec<DescriptorImageInfo>,
    ) -> (r: Result<(), Error>)
        requires
            spec_set_shape(old(self).set),
            forall|k: int|
                0 <= k < images.len() ==> (#[trigger] images[k]).image_view.image.inner.device == old(
                    self,
                ).set.device,
        ensures
            r is Err <==> spec_image_write_error(
                old(self).set.layout.bindings@,
                dst_binding as int,
                dst_array_element as int,
                images@,
                DescriptorType(DESCRIPTOR_TYPE_INPUT_ATTACHMENT),
                true,
            ) is Some,
            r is Err ==> Some(r->Err_0) == spec_image_write_error(
                old(self).set.layout.bindings@,
                dst_binding as int,
                dst_array_element as int,
                images@,
                DescriptorType(DESCRIPTOR_TYPE_INPUT_ATTACHMENT),
                true,
            ) && *final(self) == *old(self),
            r is Ok ==> spec_updated_set(
                old(self).set,
                final(self).set,
                dst_binding as int,
                dst_array_element as int,
                images@.len() as nat,
            ),
            spec_set_shape(final(self).set),
    {
        self.images_impl(
            dst_binding,
            dst_array_element,
            images,
            DescriptorType(DESCRIPTOR_TYPE_INPUT_ATTACHMENT),
        )
    }

    /// Writes combined image-sampler descriptors; the sampler half comes
    /// from the layout's immutable samplers.
    pub fn combined_image_samplers(
        &mut self,
        dst_binding: u32,
        dst_array_element: u32,
        images: &Vec<DescriptorImageInfo>,
    ) -> (r: Result<(), Error>)
        requires
            spec_set_shape(old(self).set),
            forall|k: int|
                0 <= k < images.len() ==> (#[trigger] images[k]).image_view.image.inner.device == old(
                    self,
                ).set.device,
        ensures
            r is Err <==> spec_image_write_error(
                old(self).set.layout.bindings@,
                dst_binding as int,
                dst_array_element as int,
                images@,
                DescriptorType(DESCRIPTOR_TYPE_COMBINED_IMAGE_SAMPLER),
                false,
            ) is Some,
            r is Err ==> Some(r->Err_0) == spec_image_write_error(
                old(self).set.layout.bindings@,
                dst_binding as int,
                dst_array_element as int,
                images@,
                DescriptorType(DESCRIPTOR_TYPE_COMBINED_IMAGE_SAMPLER),
                false,
            ) && *final(self) == *old(self),
            r is Ok ==> spec_updated_set(
                old(self).set,
                final(self).set,
                dst_binding as int,
                dst_array_element as int,
                images@.len() as nat,
            ),
            spec_set_shape(final(self).set),
    {
        let ty = DescriptorType(DESCRIPTOR_TYPE_COMBINED_IMAGE_SAMPLER);
        let positions = match resolve_slots(
            &self.set.layout.bindings,
            dst_binding,
            dst_array_element,
            images.len(),
            ty,
        ) {
            Ok(p) => p,
            Err(e) => {
                return Err(e);
            },
        };
        self.commit(
            positions,
            Ghost(dst_binding as int),
            Ghost(dst_array_element as int),
            Ghost(images@.len() as nat),
        );
        Ok(())
    }
}

/// The failure, if any, of a sampler write: a slot of another type is
/// `InvalidArgument`; a write past the last binding is `OutOfBounds`; a
/// slot that carries immutable samplers is `InvalidArgument`.
pub open spec fn spec_sampler_write_error(
    bindings: Seq<DescriptorSetLayoutBinding>,
    b0: int,
    e0: int,
    n: nat,
) -> Option<Error> {
    if !spec_slots_typed(bindings, b0, e0, n, DescriptorType(DESCRIPTOR_TYPE_SAMPLER)) {
        Some(Error::InvalidArgument)
    } else if !spec_slots_exist(bindings, b0, e0, n) {
        Some(Error::OutOfBounds)
    } else if exists|k: nat|
        k < n && match #[trigger] spec_slot(bindings, b0, e0, k) {
            Some(p) => bindings[p.0].immutable_samplers@.len() > 0,
            None => false,
        } {
        Some(Error::InvalidArgument)
    } else {
        None
    }
}

} // verus!
