//! The swapchain's objects: the framebuffers built over its images, and
//! their teardown.
use vstd::prelude::*;
use crate::graph::DestroyCall;

verus! {

/// The teardown of a swapchain of `count` images: each framebuffer with its
/// image view, in image order, then the render pass, then the swapchain.
pub open spec fn swapchain_plan(
    frame_buffers: Seq<u64>,
    image_views: Seq<u64>,
    render_pass: u64,
    swapchain: u64,
    count: nat,
) -> Seq<DestroyCall> {
    Seq::new(
        2 * count,
        |k: int|
            if k % 2 == 0 {
                DestroyCall::DestroyFramebuffer(frame_buffers[k / 2])
            } else {
                DestroyCall::DestroyImageView(image_views[k / 2])
            },
    ) + seq![DestroyCall::DestroyRenderPass(render_pass), DestroyCall::DestroySwapchain(swapchain)]
}

/// The destroy calls that end a swapchain and what was built over it.
pub fn destroy_swapchain(
    frame_buffers: &Vec<u64>,
    present_imgviews: &Vec<u64>,
    render_pass: u64,
    swapchain: u64,
    image_count: usize,
) -> (r: Vec<DestroyCall>)
    requires
        image_count <= frame_buffers@.len(),
        image_count <= present_imgviews@.len(),
    ensures
        r@ == swapchain_plan(
            frame_buffers@,
            present_imgviews@,
            render_pass,
            swapchain,
            image_count as nat,
        ),
{
    let mut r: Vec<DestroyCall> = Vec::new();
    let mut i: usize = 0;
    while i < image_count
        invariant
            i <= image_count,
            image_count <= frame_buffers@.len(),
            image_count <= present_imgviews@.len(),
            r@.len() == 2 * i,
            forall|k: int|
                0 <= k < 2 * i ==> #[trigger] r@[k] == if k % 2 == 0 {
                    DestroyCall::DestroyFramebuffer(frame_buffers@[k / 2])
                } else {
                    DestroyCall::DestroyImageView(present_imgviews@[k / 2])
                },
        decreases image_count - i,
    {
        r.push(DestroyCall::DestroyFramebuffer(frame_buffers[i]));
        r.push(DestroyCall::DestroyImageView(present_imgviews[i]));
        i = i + 1;
    }
    r.push(DestroyCall::DestroyRenderPass(render_pass));
    r.push(DestroyCall::DestroySwapchain(swapchain));
    proof {
        assert(r@ =~= swapchain_plan(
            frame_buffers@,
            present_imgviews@,
            render_pass,
            swapchain,
            image_count as nat,
        ));
    }
    r
}

/// The attachments of each framebuffer: the multisampled color view, the
/// depth view, and the view of swapchain image `i`.
pub fn framebuffer_attachments(
    multisample_view: u64,
    depth_view: u64,
    present_imgviews: &Vec<u64>,
    image_count: usize,
) -> (r: Vec<(u64, u64, u64)>)
    requires
        image_count <= present_imgviews@.len(),
    ensures
        r@ == Seq::new(
            image_count as nat,
            |i: int| (multisample_view, depth_view, present_imgviews@[i]),
        ),
{
    let mut r: Vec<(u64, u64, u64)> = Vec::new();
    let mut i: usize = 0;
    while i < image_count
        invariant
            i <= image_count <= present_imgviews@.len(),
            r@ == Seq::new(i as nat, |k: int| (multisample_view, depth_view, present_imgviews@[k])),
        decreases image_count - i,
    {
        r.push((multisample_view, depth_view, present_imgviews[i]));
        i = i + 1;
        proof {
            assert(r@ =~= Seq::new(
                i as nat,
                |k: int| (multisample_view, depth_view, present_imgviews@[k]),
            ));
        }
    }
    r
}

} // verus!
