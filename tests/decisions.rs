use asi_vulkan::acquire::{acquire_status, AcquireAction, AcquireStatus, Acquisition, Phase, ERROR_OUT_OF_DATE};
use asi_vulkan::device::{
    draw_allowed, get_buffering, get_memory_type, get_present_mode, select_queue, vertex_buffer_offsets,
    view_parts, Aspect, QueueCandidate, Swizzle, PRESENT_MODE_FIFO, PRESENT_MODE_MAILBOX,
};
use asi_vulkan::dispatch::{Resolver, Scope};
use asi_vulkan::graph::DestroyCall;
use asi_vulkan::instance::{instance_extensions, instance_layers, surface_extension, Platform};
use asi_vulkan::memory::Buffer;
use asi_vulkan::sprite::{
    descriptor_pool_sizes, txuniform, DescriptorInfo, DescriptorSetWriter, DescriptorType, DescriptorUpdate,
    DescriptorWrite,
};
use asi_vulkan::swapchain::{destroy_swapchain, framebuffer_attachments};
use asi_vulkan::vulkan::Vulkan;

fn names(v: &[&str]) -> Vec<String> {
    v.iter().map(|s| s.to_string()).collect()
}

/// Drives the acquire loop against scripted driver answers, counting the
/// calls the loop asks for.
fn run_acquire(answers: &[AcquireStatus]) -> (AcquireAction, usize, usize, u64) {
    let (mut acq, mut action) = Acquisition::new(1);
    let mut attempts = 0;
    let mut replacements = 0;
    let mut next_sem = 100;
    loop {
        match action {
            AcquireAction::Acquire(_) => {
                let st = answers[attempts];
                attempts += 1;
                action = acq.on_status(st);
            }
            AcquireAction::ReplaceSemaphore(_) => {
                replacements += 1;
                next_sem += 1;
                action = acq.on_semaphore(next_sem);
            }
            AcquireAction::Done(_) | AcquireAction::Abort(_) => {
                return (action, attempts, replacements, acq.semaphore());
            }
        }
    }
}

#[test]
fn acquire_retries_twice_then_succeeds() {
    let answers = [AcquireStatus::OutOfDate, AcquireStatus::OutOfDate, AcquireStatus::Success(2)];
    let (action, attempts, replacements, sem) = run_acquire(&answers);
    assert_eq!(action, AcquireAction::Done(2));
    assert_eq!(attempts, 3);
    assert_eq!(replacements, 2);
    assert_eq!(sem, 102);
}

#[test]
fn acquire_other_failure_aborts_at_once() {
    let answers = [AcquireStatus::Failed(-4), AcquireStatus::Success(0)];
    let (action, attempts, replacements, sem) = run_acquire(&answers);
    assert_eq!(action, AcquireAction::Abort(-4));
    assert_eq!(attempts, 1);
    assert_eq!(replacements, 0);
    assert_eq!(sem, 1);
}

#[test]
fn acquire_replacement_names_old_semaphore() {
    let (mut acq, first) = Acquisition::new(9);
    assert_eq!(first, AcquireAction::Acquire(9));
    assert_eq!(acq.on_status(AcquireStatus::OutOfDate), AcquireAction::ReplaceSemaphore(9));
    assert_eq!(acq.phase(), Phase::Replacing);
    assert_eq!(acq.on_semaphore(10), AcquireAction::Acquire(10));
    assert_eq!(acq.on_status(AcquireStatus::Success(1)), AcquireAction::Done(1));
    assert_eq!(acq.phase(), Phase::Finished(1));
}

#[test]
fn acquire_status_codes() {
    assert_eq!(acquire_status(0, 3), AcquireStatus::Success(3));
    assert_eq!(acquire_status(ERROR_OUT_OF_DATE, 3), AcquireStatus::OutOfDate);
    assert_eq!(acquire_status(-1000001004, 0), AcquireStatus::OutOfDate);
    assert_eq!(acquire_status(1, 3), AcquireStatus::Failed(1));
}

#[test]
fn missing_symbol_fails_and_stops() {
    let mut r = Resolver::new(Scope::Instance(5), names(&["vkA", "vkB", "vkC"]));
    let mut asked = Vec::new();
    let answers = [0x10u64, 0, 0x30];
    let mut k = 0;
    let mut err = None;
    while let Some(name) = r.next_symbol() {
        asked.push(name);
        match r.supply(answers[k]) {
            Ok(()) => {}
            Err(e) => err = Some(e),
        }
        k += 1;
    }
    assert_eq!(asked, names(&["vkA", "vkB"]));
    assert_eq!(err.unwrap().symbol, "vkB");
    assert_eq!(r.next_symbol(), None);
    assert_eq!(r.finish().unwrap_err().symbol, "vkB");
}

#[test]
fn resolved_table_looks_up_by_name() {
    let mut r = Resolver::new(Scope::Device(3), names(&["vkA", "vkB", "vkA"]));
    r.supply(1).unwrap();
    r.supply(2).unwrap();
    r.supply(3).unwrap();
    assert_eq!(r.next_symbol(), None);
    let t = r.finish().unwrap();
    assert_eq!(t.scope(), Scope::Device(3));
    assert_eq!(t.address("vkA"), Some(1));
    assert_eq!(t.address("vkB"), Some(2));
    assert_eq!(t.address("vkC"), None);
}

#[test]
fn memory_type_first_fit() {
    let flags = vec![0x1, 0x6, 0x7, 0x6];
    assert_eq!(get_memory_type(0b1111, &flags, 0x6), Some(1));
    assert_eq!(get_memory_type(0b1101, &flags, 0x6), Some(2));
    assert_eq!(get_memory_type(0b0001, &flags, 0x6), None);
    assert_eq!(get_memory_type(0b1111, &flags, 0), Some(0));
    assert_eq!(get_memory_type(0xffff_ffff, &vec![], 0), None);
}

#[test]
fn buffering_from_surface_limits() {
    assert_eq!(get_buffering(3, 3), 3);
    assert_eq!(get_buffering(2, 0), 2);
    assert_eq!(get_buffering(1, 8), 2);
    assert_eq!(get_buffering(0, 1), 1);
}

#[test]
fn present_mode_prefers_mailbox() {
    assert_eq!(get_present_mode(&vec![0, 2, 1]), PRESENT_MODE_MAILBOX);
    assert_eq!(get_present_mode(&vec![0, 2, 3]), PRESENT_MODE_FIFO);
    assert_eq!(get_present_mode(&vec![]), PRESENT_MODE_FIFO);
}

#[test]
fn vertex_offsets_for_one_to_three() {
    assert_eq!(vertex_buffer_offsets(0), None);
    assert_eq!(vertex_buffer_offsets(1), Some(vec![0]));
    assert_eq!(vertex_buffer_offsets(3), Some(vec![0, 0, 0]));
    assert_eq!(vertex_buffer_offsets(4), None);
    assert!(!draw_allowed(2));
    assert!(draw_allowed(3));
}

#[test]
fn view_parts_by_color() {
    assert_eq!(view_parts(true), (Swizzle::Rgba, Aspect::Color));
    assert_eq!(view_parts(false), (Swizzle::Identity, Aspect::Depth));
}

#[test]
fn queue_selection_needs_graphics_and_present() {
    let c = |gpu, family, graphics, present| QueueCandidate { gpu, family, graphics, present };
    let v = vec![c(1, 0, true, false), c(1, 1, false, true), c(2, 0, true, true), c(3, 0, true, true)];
    assert_eq!(select_queue(&v), Some(2));
    assert_eq!(select_queue(&v[..2].to_vec()), None);
}

#[test]
fn descriptor_writer_bindings() {
    let mut vk = Vulkan::new(1, 2, {
        let r = Resolver::new(Scope::Instance(2), vec![]);
        assert_eq!(r.next_symbol(), None);
        r.finish().unwrap()
    })
    .unwrap();
    let b = Buffer::new(&mut vk, 30, 31).unwrap();
    let w = DescriptorSetWriter::new().uniform(5, &b).sampler(5, 40, 41);
    assert_eq!(w.len(), 2);
    assert_eq!(
        w.update_descriptor_sets(),
        vec![
            DescriptorUpdate {
                dst_set: 5,
                dst_binding: 0,
                descriptor_type: DescriptorType::UniformBuffer,
                info: DescriptorInfo::Buffer { buffer: 30, offset: 0, range: u64::MAX },
            },
            DescriptorUpdate {
                dst_set: 5,
                dst_binding: 1,
                descriptor_type: DescriptorType::CombinedImageSampler,
                info: DescriptorInfo::Image { sampler: 40, view: 41 },
            },
        ]
    );
}

#[test]
fn sprite_writes_in_order() {
    let mut vk = Vulkan::new(1, 2, Resolver::new(Scope::Instance(2), vec![]).finish().unwrap()).unwrap();
    let m = Buffer::new(&mut vk, 10, 11).unwrap();
    let cam = Buffer::new(&mut vk, 12, 13).unwrap();
    let fog = Buffer::new(&mut vk, 14, 15).unwrap();
    let w = txuniform(7, &m, &cam, Some(&fog), Some((20, 21)));
    let ups = w.update_descriptor_sets();
    assert_eq!(ups.len(), 4);
    assert_eq!(ups[2].info, DescriptorInfo::Buffer { buffer: 14, offset: 0, range: u64::MAX });
    assert_eq!(ups[3].info, DescriptorInfo::Image { sampler: 20, view: 21 });
    assert_eq!(ups[3].dst_binding, 3);
    let plain = txuniform(7, &m, &cam, None, None);
    assert_eq!(plain.len(), 2);
    let _ = DescriptorWrite::Uniform { desc_set: 7, buffer: 10 };
}

#[test]
fn pool_sizes_by_texture() {
    let u = DescriptorType::UniformBuffer;
    assert_eq!(descriptor_pool_sizes(false), vec![u, u, u]);
    assert_eq!(descriptor_pool_sizes(true), vec![u, u, u, DescriptorType::CombinedImageSampler]);
}

#[test]
fn swapchain_teardown_order() {
    assert_eq!(
        destroy_swapchain(&vec![1, 2, 9], &vec![3, 4, 9], 5, 6, 2),
        vec![
            DestroyCall::DestroyFramebuffer(1),
            DestroyCall::DestroyImageView(3),
            DestroyCall::DestroyFramebuffer(2),
            DestroyCall::DestroyImageView(4),
            DestroyCall::DestroyRenderPass(5),
            DestroyCall::DestroySwapchain(6),
        ]
    );
    assert_eq!(
        framebuffer_attachments(7, 8, &vec![3, 4], 2),
        vec![(7, 8, 3), (7, 8, 4)]
    );
}

#[test]
fn instance_layers_and_extensions() {
    assert_eq!(instance_layers(false), Vec::<&str>::new());
    assert_eq!(instance_layers(true), vec!["VK_LAYER_LUNARG_standard_validation"]);
    assert_eq!(surface_extension(Platform::Windows), Some("VK_KHR_win32_surface"));
    assert_eq!(
        instance_extensions(Platform::Linux, true),
        Some(vec!["VK_KHR_surface", "VK_KHR_xcb_surface", "VK_EXT_debug_report"])
    );
    assert_eq!(
        instance_extensions(Platform::Android, false),
        Some(vec!["VK_KHR_surface", "VK_KHR_android_surface"])
    );
    assert_eq!(instance_extensions(Platform::Other, false), None);
}
