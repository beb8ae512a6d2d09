use vstd::prelude::*;

use crate::buffer::Buffer;
use crate::command_buffer::Cmd;
use crate::command_buffer::CommandRecording;
use crate::enums::ImageLayout;
use crate::error::Error;
use crate::image::Image;
use crate::types::BufferCopy;
use crate::types::BufferImageCopy;
use crate::types::ClearColorValue;
use crate::types::ImageBlit;
use crate::types::ImageSubresourceRange;

verus! {

/// The bytes one region of a buffer-to-image copy reads from the
/// buffer: texel size times region extent times layer count, capped at
/// one past what a buffer could hold.
pub open spec fn spec_region_byte_size(image: Image, region: BufferImageCopy) -> int {
    image.inner.format.spec_texel_size() * region.image_extent.width * region.image_extent.height
        * region.image_extent.depth * region.image_subresource.layer_count
}

/// True if one region of a buffer-to-image copy is fully in bounds: the
/// texel box lies in the image at its mip level, the layer range lies in
/// the image's layers, and the read bytes lie in the buffer.
pub open spec fn spec_buffer_image_region_ok(src: Buffer, dst: Image, region: BufferImageCopy) -> bool {
    &&& dst.inner.spec_box_in_bounds(
        region.image_subresource.mip_level,
        region.image_offset,
        region.image_extent,
    )
    &&& region.image_subresource.base_array_layer + region.image_subresource.layer_count
        <= dst.inner.array_layers
    &&& region.buffer_offset + spec_region_byte_size(dst, region) <= src.inner.len
}

/// True if one region of an image-to-image blit is fully in bounds on
/// both sides.
pub open spec fn spec_blit_region_ok(src: Image, dst: Image, region: ImageBlit) -> bool {
    &&& region.src_subresource.base_array_layer + region.src_subresource.layer_count
        <= src.inner.array_layers
    &&& src.inner.spec_offset_in_bounds(region.src_subresource.mip_level, region.src_offset_min)
    &&& src.inner.spec_offset_in_bounds(region.src_subresource.mip_level, region.src_offset_max)
    &&& region.dst_subresource.base_array_layer + region.dst_subresource.layer_count
        <= dst.inner.array_layers
    &&& dst.inner.spec_offset_in_bounds(region.dst_subresource.mip_level, region.dst_offset_min)
    &&& dst.inner.spec_offset_in_bounds(region.dst_subresource.mip_level, region.dst_offset_max)
}

impl CommandRecording {
    /// Fills a buffer range with a word.  Offset and size are rounded
    /// down to a multiple of four; a size of `None` stands for the rest
    /// of the buffer.  Returns `OutOfBounds`, changing nothing, if the
    /// range lies outside the buffer.
    pub fn fill_buffer(&mut self, dst: &Buffer, offset: u64, size: Option<u64>, data: u32) -> (r:
        Result<(), Error>)
        ensures
            r is Ok <==> (match size {
                Some(s) => offset - offset % 4 + s <= dst.inner.len,
                None => offset - offset % 4 <= dst.inner.len,
            }),
            r is Err ==> r->Err_0 == Error::OutOfBounds && *final(self) == *old(self),
            r is Ok ==> *final(self) == (CommandRecording {
                commands: Ghost(
                    old(self).commands@.push(
                        (Cmd::FillBuffer {
                            dst: dst.inner.handle,
                            offset: (offset - offset % 4) as u64,
                            size: (match size {
                                Some(s) => (s - s % 4) as u64,
                                None => u64::MAX,
                            }),
                            data,
                        }),
                    ),
                ),
                ..*old(self)
            }),
    {
        let offset_aligned: u64 = offset - offset % 4;
        let recorded_size: u64 = match size {
            Some(s) => {
                if !dst.bounds_check(offset_aligned, s) {
                    return Err(Error::OutOfBounds);
                }
                s - s % 4
            },
            None => {
                if !dst.bounds_check(offset_aligned, 0) {
                    return Err(Error::OutOfBounds);
                }
                u64::MAX
            },
        };
        proof {
            self.commands@ = self.commands@.push(
                (Cmd::FillBuffer {
                    dst: dst.inner.handle,
                    offset: offset_aligned,
                    size: recorded_size,
                    data,
                }),
            );
        }
        Ok(())
    }

    /// Copies byte ranges between two buffers.  Returns
    /// `InvalidArgument`, changing nothing, if `regions` is empty, and
    /// `OutOfBounds` if a region lies outside either buffer.
    #[verifier::loop_isolation(false)]
    pub fn copy_buffer(&mut self, src: &Buffer, dst: &Buffer, regions: &Vec<BufferCopy>) -> (r:
        Result<(), Error>)
        ensures
            r is Ok <==> regions.len() > 0 && (forall|k: int|
                0 <= k < regions.len() ==> (#[trigger] regions[k]).src_offset + regions[k].size
                    <= src.inner.len && regions[k].dst_offset + regions[k].size <= dst.inner.len),
            r is Err && r->Err_0 == Error::InvalidArgument <==> regions.len() == 0,
            r is Err && r->Err_0 == Error::OutOfBounds <==> regions.len() > 0 && !(forall|k: int|
                0 <= k < regions.len() ==> (#[trigger] regions[k]).src_offset + regions[k].size
                    <= src.inner.len && regions[k].dst_offset + regions[k].size <= dst.inner.len),
            r is Err ==> *final(self) == *old(self),
            r is Ok ==> *final(self) == (CommandRecording {
                commands: Ghost(
                    old(self).commands@.push(
                        (Cmd::CopyBuffer {
                            src: src.inner.handle,
                            dst: dst.inner.handle,
                            regions: regions@,
                        }),
                    ),
                ),
                ..*old(self)
            }),
    {
        if regions.len() == 0 {
            return Err(Error::InvalidArgument);
        }
        let mut k: usize = 0;
        while k < regions.len()
            invariant
                k <= regions.len(),
                forall|j: int|
                    0 <= j < k ==> (#[trigger] regions[j]).src_offset + regions[j].size
                        <= src.inner.len,
                forall|j: int|
                    0 <= j < k ==> (#[trigger] regions[j]).dst_offset + regions[j].size
                        <= dst.inner.len,
            decreases regions.len() - k,
        {
            let region = regions[k];
            if !src.bounds_check(region.src_offset, region.size) || !dst.bounds_check(
                region.dst_offset,
                region.size,
            ) {
                return Err(Error::OutOfBounds);
            }
            k = k + 1;
        }
        proof {
            self.commands@ = self.commands@.push(
                (Cmd::CopyBuffer {
                    src: src.inner.handle,
                    dst: dst.inner.handle,
                    regions: regions@,
                }),
            );
        }
        Ok(())
    }

    /// Copies buffer bytes into image regions.  Returns
    /// `InvalidArgument`, changing nothing, if `regions` is empty, and
    /// `OutOfBounds` if a region lies outside the image's texels or
    /// layers, or its bytes lie outside the buffer, or its byte size
    /// cannot be represented.
    #[verifier::loop_isolation(false)]
    pub fn copy_buffer_to_image(
        &mut self,
        src: &Buffer,
        dst: &Image,
        dst_layout: ImageLayout,
        regions: &Vec<BufferImageCopy>,
    ) -> (r: Result<(), Error>)
        ensures
            r is Ok <==> regions.len() > 0 && (forall|k: int|
                0 <= k < regions.len() ==> spec_buffer_image_region_ok(
                    *src,
                    *dst,
                    #[trigger] regions[k],
                )),
            r is Err && r->Err_0 == Error::InvalidArgument <==> regions.len() == 0,
            r is Err && r->Err_0 == Error::OutOfBounds <==> regions.len() > 0 && !(forall|k: int|
                0 <= k < regions.len() ==> spec_buffer_image_region_ok(
                    *src,
                    *dst,
                    #[trigger] regions[k],
                )),
            r is Err ==> *final(self) == *old(self),
            r is Ok ==> *final(self) == (CommandRecording {
                commands: Ghost(
                    old(self).commands@.push(
                        (Cmd::CopyBufferToImage {
                            src: src.inner.handle,
                            dst: dst.inner.handle,
                            dst_layout,
                            regions: regions@,
                        }),
                    ),
                ),
                ..*old(self)
            }),
    {
        if regions.len() == 0 {
            return Err(Error::InvalidArgument);
        }
        let mut k: usize = 0;
        while k < regions.len()
            invariant
                k <= regions.len(),
                forall|j: int|
                    0 <= j < k ==> spec_buffer_image_region_ok(*src, *dst, #[trigger] regions[j]),
            decreases regions.len() - k,
        {
            let region = regions[k];
            let texel = dst.format().texel_size();
            let bytes: u64 = match region_bytes(texel, &region) {
                Some(v) => v,
                None => {
                    proof {
                        assert(spec_region_byte_size(*dst, region) > u64::MAX);
                        assert(!spec_buffer_image_region_ok(*src, *dst, region));
                    }
                    return Err(Error::OutOfBounds);
                },
            };
            if !dst.bounds_check(
                region.image_subresource.mip_level,
                region.image_offset,
                region.image_extent,
            ) || !dst.array_bounds_check(
                region.image_subresource.base_array_layer,
                region.image_subresource.layer_count,
            ) || !src.bounds_check(region.buffer_offset, bytes) {
                return Err(Error::OutOfBounds);
            }
            k = k + 1;
        }
        proof {
            self.commands@ = self.commands@.push(
                (Cmd::CopyBufferToImage {
                    src: src.inner.handle,
                    dst: dst.inner.handle,
                    dst_layout,
                    regions: regions@,
                }),
            );
        }
        Ok(())
    }

    /// Copies and scales between image regions.  Returns
    /// `InvalidArgument`, changing nothing, if `regions` is empty, and
    /// `OutOfBounds` if a corner of a region lies outside its image or a
    /// layer range lies outside its image's layers.
    #[verifier::loop_isolation(false)]
    pub fn blit_image(
        &mut self,
        src: &Image,
        src_layout: ImageLayout,
        dst: &Image,
        dst_layout: ImageLayout,
        regions: &Vec<ImageBlit>,
        filter: crate::enums::Filter,
    ) -> (r: Result<(), Error>)
        ensures
            r is Ok <==> regions.len() > 0 && (forall|k: int|
                0 <= k < regions.len() ==> spec_blit_region_ok(*src, *dst, #[trigger] regions[k])),
            r is Err && r->Err_0 == Error::InvalidArgument <==> regions.len() == 0,
            r is Err && r->Err_0 == Error::OutOfBounds <==> regions.len() > 0 && !(forall|k: int|
                0 <= k < regions.len() ==> spec_blit_region_ok(*src, *dst, #[trigger] regions[k])),
            r is Err ==> *final(self) == *old(self),
            r is Ok ==> *final(self) == (CommandRecording {
                commands: Ghost(
                    old(self).commands@.push(
                        (Cmd::BlitImage {
                            src: src.inner.handle,
                            src_layout,
                            dst: dst.inner.handle,
                            dst_layout,
                            regions: regions@,
                            filter,
                        }),
                    ),
                ),
                ..*old(self)
            }),
    {
        if regions.len() == 0 {
            return Err(Error::InvalidArgument);
        }
        let mut k: usize = 0;
        while k < regions.len()
            invariant
                k <= regions.len(),
                forall|j: int|
                    0 <= j < k ==> spec_blit_region_ok(*src, *dst, #[trigger] regions[j]),
            decreases regions.len() - k,
        {
            let region = regions[k];
            if !src.array_bounds_check(
                region.src_subresource.base_array_layer,
                region.src_subresource.layer_count,
            ) || !src.offset_bounds_check(region.src_subresource.mip_level, region.src_offset_min)
                || !src.offset_bounds_check(
                region.src_subresource.mip_level,
                region.src_offset_max,
            ) {
                return Err(Error::OutOfBounds);
            }
            if !dst.array_bounds_check(
                region.dst_subresource.base_array_layer,
                region.dst_subresource.layer_count,
            ) || !dst.offset_bounds_check(region.dst_subresource.mip_level, region.dst_offset_min)
                || !dst.offset_bounds_check(
                region.dst_subresource.mip_level,
                region.dst_offset_max,
            ) {
                return Err(Error::OutOfBounds);
            }
            k = k + 1;
        }
        proof {
            self.commands@ = self.commands@.push(
                (Cmd::BlitImage {
                    src: src.inner.handle,
                    src_layout,
                    dst: dst.inner.handle,
                    dst_layout,
                    regions: regions@,
                    filter,
                }),
            );
        }
        Ok(())
    }

    /// Clears whole subresource ranges of a color image.  Returns
    /// `InvalidArgument`, changing nothing, if `ranges` is empty.
    pub fn clear_color_image(
        &mut self,
        image: &Image,
        layout: ImageLayout,
        color: ClearColorValue,
        ranges: &Vec<ImageSubresourceRange>,
    ) -> (r: Result<(), Error>)
        ensures
            r is Ok <==> ranges.len() > 0,
            r is Err ==> r->Err_0 == Error::InvalidArgument && *final(self) == *old(self),
            r is Ok ==> *final(self) == (CommandRecording {
                commands: Ghost(
                    old(self).commands@.push(
                        (Cmd::ClearColorImage {
                            image: image.inner.handle,
                            layout,
                            color,
                            ranges: ranges@,
                        }),
                    ),
                ),
                ..*old(self)
            }),
    {
        if ranges.len() == 0 {
            return Err(Error::InvalidArgument);
        }
        proof {
            self.commands@ = self.commands@.push(
                (Cmd::ClearColorImage {
                    image: image.inner.handle,
                    layout,
                    color,
                    ranges: ranges@,
                }),
            );
        }
        Ok(())
    }
}

/// Computes the bytes one region reads, or `None` if they cannot be
/// counted in 64 bits.
fn region_bytes(texel: u64, region: &BufferImageCopy) -> (r: Option<u64>)
    ensures
        r is Some <==> texel * region.image_extent.width * region.image_extent.height
            * region.image_extent.depth * region.image_subresource.layer_count <= u64::MAX,
        r is Some ==> r->0 == texel * region.image_extent.width * region.image_extent.height
            * region.image_extent.depth * region.image_subresource.layer_count,
{
    let w = region.image_extent.width as u64;
    let h = region.image_extent.height as u64;
    let d = region.image_extent.depth as u64;
    let layers = region.image_subresource.layer_count as u64;
    if w == 0 || h == 0 || d == 0 || layers == 0 {
        proof {
            assert(texel * w * h * d * layers == 0) by (nonlinear_arith)
                requires
                    w == 0 || h == 0 || d == 0 || layers == 0,
            ;
        }
        return Some(0);
    }
    let a = match texel.checked_mul(w) {
        Some(v) => v,
        None => {
            proof {
                lemma_over_cap(texel as int * w, h as int, d as int, layers as int);
            }
            return None;
        },
    };
    let b = match a.checked_mul(h) {
        Some(v) => v,
        None => {
            proof {
                lemma_over_cap(a as int * h, d as int, layers as int, 1);
            }
            return None;
        },
    };
    let c = match b.checked_mul(d) {
        Some(v) => v,
        None => {
            proof {
                lemma_over_cap(b as int * d, layers as int, 1, 1);
            }
            return None;
        },
    };
    c.checked_mul(layers)
}

/// A product already over the cap stays over it under further positive
/// factors.
proof fn lemma_over_cap(base: int, f1: int, f2: int, f3: int)
    requires
        base > u64::MAX,
        f1 >= 1,
        f2 >= 1,
        f3 >= 1,
    ensures
        base * f1 * f2 * f3 > u64::MAX,
{
    assert(base * f1 >= base) by (nonlinear_arith)
        requires
            base > 0 && f1 >= 1,
    ;
    assert(base * f1 * f2 >= base * f1) by (nonlinear_arith)
        requires
            base * f1 > 0 && f2 >= 1,
    ;
    assert(base * f1 * f2 * f3 >= base * f1 * f2) by (nonlinear_arith)
        requires
            base * f1 * f2 > 0 && f3 >= 1,
    ;
}

} // verus!
