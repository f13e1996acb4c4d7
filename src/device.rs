//! Choices made from what the driver reports about a physical device.
use vstd::prelude::*;

verus! {

/// The present mode that waits for no vertical blank and replaces queued
/// images.
pub const PRESENT_MODE_MAILBOX: u32 = 1;

/// The present mode that every driver supports.
pub const PRESENT_MODE_FIFO: u32 = 2;

/// Memory type `i` is allowed by `type_bits` and has every property of
/// `mask`.
pub open spec fn memory_type_fits(type_bits: u32, flags: Seq<u32>, mask: u32, i: int) -> bool {
    &&& 0 <= i < flags.len()
    &&& i < 32
    &&& (type_bits >> (i as u32)) & 1 == 1
    &&& flags[i] & mask == mask
}

/// The first memory type that `type_bits` allows and that has every
/// property of `reqs_mask`; none if no type fits.
pub fn get_memory_type(type_bits: u32, flags: &Vec<u32>, reqs_mask: u32) -> (r: Option<u32>)
    ensures
        match r {
            Some(i) => memory_type_fits(type_bits, flags@, reqs_mask, i as int) && forall|j: int|
                0 <= j < i ==> !#[trigger] memory_type_fits(type_bits, flags@, reqs_mask, j),
            None => forall|j: int| !#[trigger] memory_type_fits(type_bits, flags@, reqs_mask, j),
        },
{
    let mut i: usize = 0;
    while i < flags.len() && i < 32
        invariant
            i <= 32,
            forall|j: int| 0 <= j < i ==> !#[trigger] memory_type_fits(type_bits, flags@, reqs_mask, j),
        decreases flags.len() - i,
    {
        if (type_bits >> (i as u32)) & 1 == 1 && flags[i] & reqs_mask == reqs_mask {
            return Some(i as u32);
        }
        i = i + 1;
    }
    None
}

/// How many swapchain images to ask for, from the surface's minimum and
/// maximum: the minimum when it is not below the maximum, else two, or one
/// where the maximum is below two.
pub open spec fn buffering(min: u32, max: u32) -> u32 {
    if min >= max {
        min
    } else if max < 2 {
        1
    } else {
        2
    }
}

/// The swapchain image count for a surface's limits.
pub fn get_buffering(min_image_count: u32, max_image_count: u32) -> (r: u32)
    ensures
        r == buffering(min_image_count, max_image_count),
{
    if min_image_count >= max_image_count {
        min_image_count
    } else if max_image_count < 2 {
        1
    } else {
        2
    }
}

/// Mailbox where the surface offers it, else FIFO.
pub fn get_present_mode(modes: &Vec<u32>) -> (r: u32)
    ensures
        r == if modes@.contains(PRESENT_MODE_MAILBOX) {
            PRESENT_MODE_MAILBOX
        } else {
            PRESENT_MODE_FIFO
        },
{
    let mut i: usize = 0;
    while i < modes.len()
        invariant
            i <= modes.len(),
            forall|j: int| 0 <= j < i ==> #[trigger] modes@[j] != PRESENT_MODE_MAILBOX,
        decreases modes.len() - i,
    {
        if modes[i] == PRESENT_MODE_MAILBOX {
            proof {
                assert(modes@[i as int] == PRESENT_MODE_MAILBOX);
            }
            return PRESENT_MODE_MAILBOX;
        }
        i = i + 1;
    }
    PRESENT_MODE_FIFO
}

/// The offsets for binding `count` vertex buffers: all zero, for one to
/// three buffers; none for any other count.
pub fn vertex_buffer_offsets(count: usize) -> (r: Option<Vec<u64>>)
    ensures
        match r {
            Some(v) => 1 <= count <= 3 && v@ == Seq::new(count as nat, |i: int| 0u64),
            None => count < 1 || count > 3,
        },
{
    if count < 1 || count > 3 {
        return None;
    }
    let mut v: Vec<u64> = Vec::new();
    let mut i: usize = 0;
    while i < count
        invariant
            i <= count <= 3,
            v@ == Seq::new(i as nat, |k: int| 0u64),
        decreases count - i,
    {
        v.push(0);
        i = i + 1;
        proof {
            assert(v@ =~= Seq::new(i as nat, |k: int| 0u64));
        }
    }
    Some(v)
}

/// A draw needs at least three vertices.
pub fn draw_allowed(nvertices: u32) -> (r: bool)
    ensures
        r == (nvertices > 2),
{
    nvertices > 2
}

/// Where each channel of an image view reads from.
#[derive(Clone, Copy, Debug, PartialEq, Eq, Structural)]
pub enum Swizzle {
    Identity,
    Rgba,
}

/// The aspect of an image that a view sees.
#[derive(Clone, Copy, Debug, PartialEq, Eq, Structural)]
pub enum Aspect {
    Color,
    Depth,
}

/// The swizzle and aspect of a view: red, green, blue and alpha in place
/// over the color aspect for a color image, identity over the depth aspect
/// for a depth image.
pub fn view_parts(has_color: bool) -> (r: (Swizzle, Aspect))
    ensures
        r == if has_color {
            (Swizzle::Rgba, Aspect::Color)
        } else {
            (Swizzle::Identity, Aspect::Depth)
        },
{
    if has_color {
        (Swizzle::Rgba, Aspect::Color)
    } else {
        (Swizzle::Identity, Aspect::Depth)
    }
}

/// One queue family of one physical device, with what it can do.
#[derive(Clone, Copy, Debug, PartialEq, Eq, Structural)]
pub struct QueueCandidate {
    pub gpu: u64,
    pub family: u32,
    pub graphics: bool,
    pub present: bool,
}

pub open spec fn usable(c: QueueCandidate) -> bool {
    c.graphics && c.present
}

/// The first candidate that supports both graphics and presentation.
pub fn select_queue(candidates: &Vec<QueueCandidate>) -> (r: Option<usize>)
    ensures
        match r {
            Some(i) => i < candidates@.len() && usable(candidates@[i as int]) && forall|j: int|
                0 <= j < i ==> !#[trigger] usable(candidates@[j]),
            None => forall|j: int| 0 <= j < candidates@.len() ==> !#[trigger] usable(candidates@[j]),
        },
{
    let mut i: usize = 0;
    while i < candidates.len()
        invariant
            i <= candidates.len(),
            forall|j: int| 0 <= j < i ==> !#[trigger] usable(candidates@[j]),
        decreases candidates.len() - i,
    {
        let c = candidates[i];
        if c.graphics && c.present {
            return Some(i);
        }
        i = i + 1;
    }
    None
}

} // verus!
