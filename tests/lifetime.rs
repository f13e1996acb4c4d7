use asi_vulkan::dispatch::{DispatchTable, Resolver, Scope};
use asi_vulkan::fence::Fence;
use asi_vulkan::graph::{destroy_calls, teardown_calls, DestroyCall, DeviceContext, Node, VulkanContext};
use asi_vulkan::image::Image;
use asi_vulkan::memory::{buffer_size, Buffer, BufferBuilderType, Memory};
use asi_vulkan::shader::ShaderModule;
use asi_vulkan::sprite::Sprite;
use asi_vulkan::vulkan::{GraphError, Vulkan};

fn table(scope: Scope, names: &[&str]) -> DispatchTable {
    let mut r = Resolver::new(scope, names.iter().map(|s| s.to_string()).collect());
    let mut addr = 0x1000u64;
    while let Some(_) = r.next_symbol() {
        r.supply(addr).unwrap();
        addr += 8;
    }
    r.finish().unwrap()
}

fn root() -> Vulkan {
    Vulkan::new(7, 11, table(Scope::Instance(11), &["vkCreateDevice"])).unwrap()
}

fn device() -> DeviceContext {
    DeviceContext {
        gpu: 21,
        pqi: 0,
        sampled: true,
        device: 22,
        command_pool: 23,
        command_buffer: 24,
        sampler: 25,
    }
}

#[test]
fn destroy_runs_once_after_all_clones_release() {
    let mut vk = root();
    let f = Fence::new(&mut vk, 300).unwrap();
    let f2 = f.share(&mut vk).unwrap();
    let f3 = f2.share(&mut vk).unwrap();
    let mut fired: Vec<DestroyCall> = Vec::new();
    fired.extend(f.release(&mut vk).unwrap());
    assert!(fired.is_empty());
    fired.extend(f3.release(&mut vk).unwrap());
    assert!(fired.is_empty());
    fired.extend(f2.release(&mut vk).unwrap());
    assert_eq!(fired, vec![DestroyCall::DestroyFence(300)]);
    assert_eq!(vk.live(), 0);
}

#[test]
fn root_teardown_comes_last_in_order() {
    let mut vk = root();
    vk.set_surface(40).unwrap();
    vk.attach_device(device(), table(Scope::Device(22), &["vkCmdDraw"])).unwrap();
    let img = Image::new(&mut vk, 100, 101).unwrap();
    let fence = Fence::new(&mut vk, 102).unwrap();
    assert_eq!(vk.release_root().unwrap(), vec![]);
    assert!(!vk.is_torn_down());
    assert_eq!(fence.release(&mut vk).unwrap(), vec![DestroyCall::DestroyFence(102)]);
    assert_eq!(
        img.release(&mut vk).unwrap(),
        vec![
            DestroyCall::DestroyImage(100),
            DestroyCall::FreeMemory(101),
            DestroyCall::DestroySampler(25),
            DestroyCall::DestroyCommandPool(23),
            DestroyCall::DestroySurface(40),
            DestroyCall::DestroyDevice(22),
            DestroyCall::DestroyInstance(11),
            DestroyCall::UnloadLibrary(7),
        ]
    );
    assert!(vk.is_torn_down());
}

#[test]
fn root_released_last_tears_down_at_once() {
    let mut vk = root();
    let b = Buffer::new(&mut vk, 5, 6).unwrap();
    assert_eq!(
        b.release(&mut vk).unwrap(),
        vec![DestroyCall::DestroyBuffer(5), DestroyCall::FreeMemory(6)]
    );
    assert_eq!(
        vk.release_root().unwrap(),
        vec![DestroyCall::DestroyInstance(11), DestroyCall::UnloadLibrary(7)]
    );
    assert!(vk.is_torn_down());
    assert_eq!(vk.release_root().unwrap_err(), GraphError::RootReleased);
}

#[test]
fn destroyed_node_refuses_every_operation() {
    let mut vk = root();
    let r = vk.create(Node::Fence { fence: 9 }).unwrap();
    let twin = vk.retain(&r).unwrap();
    vk.release(r).unwrap();
    assert_eq!(vk.release(twin).unwrap(), vec![DestroyCall::DestroyFence(9)]);
    let probe = vk.create(Node::Fence { fence: 1 }).unwrap();
    assert_eq!(probe.id(), 1);
    // Node 0 is destroyed; a reference to it is refused everywhere.
    let zero = {
        let mut g = root();
        g.create(Node::Fence { fence: 0 }).unwrap()
    };
    assert_eq!(zero.id(), 0);
    assert_eq!(vk.handles(&zero).unwrap_err(), GraphError::Destroyed);
    assert_eq!(vk.retain(&zero).unwrap_err(), GraphError::Destroyed);
    assert_eq!(vk.release(zero).unwrap_err(), GraphError::Destroyed);
}

#[test]
fn unknown_node_is_refused() {
    let mut vk = root();
    let mut big = root();
    big.create(Node::Fence { fence: 1 }).unwrap();
    let far = big.create(Node::Fence { fence: 2 }).unwrap();
    assert_eq!(vk.handles(&far).unwrap_err(), GraphError::UnknownNode);
    assert_eq!(vk.release(far).unwrap_err(), GraphError::UnknownNode);
}

#[test]
fn image_then_memory_on_destroy() {
    let mut vk = root();
    let img = Image::new(&mut vk, 70, 71).unwrap();
    assert_eq!(img.image(), (70, 71));
    assert_eq!(img.memory(), 71);
    assert_eq!(
        img.release(&mut vk).unwrap(),
        vec![DestroyCall::DestroyImage(70), DestroyCall::FreeMemory(71)]
    );
}

#[test]
fn destroy_plans_of_each_kind() {
    assert_eq!(
        destroy_calls(&Node::Style { pipeline: 1, pipeline_layout: 2, descset_layout: 3 }),
        vec![
            DestroyCall::DestroyPipeline(1),
            DestroyCall::DestroyPipelineLayout(2),
            DestroyCall::DestroyDescriptorSetLayout(3),
        ]
    );
    assert_eq!(
        destroy_calls(&Node::Sprite { desc_set: 4, desc_pool: 5 }),
        vec![DestroyCall::DestroyDescriptorPool(5)]
    );
    assert_eq!(
        destroy_calls(&Node::Buffer { buffer: 6, memory: 7 }),
        vec![DestroyCall::DestroyBuffer(6), DestroyCall::FreeMemory(7)]
    );
    assert_eq!(destroy_calls(&Node::Shader { module: 8 }), vec![DestroyCall::DestroyShaderModule(8)]);
}

#[test]
fn teardown_without_device_or_surface() {
    let c = VulkanContext { library: 1, instance: 2, surface: None, device: None };
    assert_eq!(
        teardown_calls(&c),
        vec![DestroyCall::DestroyInstance(2), DestroyCall::UnloadLibrary(1)]
    );
}

#[test]
fn creation_after_root_release_is_refused() {
    let mut vk = root();
    let keep = Fence::new(&mut vk, 1).unwrap();
    vk.release_root().unwrap();
    assert_eq!(Fence::new(&mut vk, 2).err().unwrap(), GraphError::RootReleased);
    assert_eq!(vk.set_surface(3).unwrap_err(), GraphError::RootReleased);
    assert_eq!(
        vk.attach_device(device(), table(Scope::Device(22), &[])).unwrap_err(),
        GraphError::RootReleased
    );
    assert_eq!(
        keep.release(&mut vk).unwrap(),
        vec![
            DestroyCall::DestroyFence(1),
            DestroyCall::DestroyInstance(11),
            DestroyCall::UnloadLibrary(7),
        ]
    );
}

#[test]
fn scopes_are_not_mixed() {
    assert_eq!(
        Vulkan::new(7, 11, table(Scope::Device(11), &[])).err().unwrap(),
        GraphError::WrongScope
    );
    assert_eq!(
        Vulkan::new(7, 11, table(Scope::Instance(12), &[])).err().unwrap(),
        GraphError::WrongScope
    );
    let mut vk = root();
    assert_eq!(
        vk.attach_device(device(), table(Scope::Device(99), &[])).unwrap_err(),
        GraphError::WrongScope
    );
    assert_eq!(
        vk.attach_device(device(), table(Scope::Instance(11), &[])).unwrap_err(),
        GraphError::WrongScope
    );
    assert!(!vk.sampled());
    vk.attach_device(device(), table(Scope::Device(22), &["vkCmdDraw"])).unwrap();
    assert!(vk.sampled());
    assert_eq!(vk.device_table().unwrap().address("vkCmdDraw"), Some(0x1000));
    assert_eq!(vk.instance_table().scope(), Scope::Instance(11));
    assert_eq!(
        vk.attach_device(device(), table(Scope::Device(22), &[])).unwrap_err(),
        GraphError::DeviceAttached
    );
}

#[test]
fn second_surface_is_refused() {
    let mut vk = root();
    vk.set_surface(5).unwrap();
    assert_eq!(vk.set_surface(6).unwrap_err(), GraphError::SurfaceAttached);
    assert_eq!(vk.context().surface, Some(5));
}

#[test]
fn sprite_releases_pool_then_uniform_buffer() {
    let mut vk = root();
    let b = Buffer::new(&mut vk, 50, 51).unwrap();
    let s = match Sprite::new(&mut vk, b, 60, 61, 62, 63) {
        Ok(s) => s,
        Err(_) => panic!("sprite refused"),
    };
    assert_eq!(s.handles(), (60, 61));
    assert_eq!(s.pipeline(), 62);
    assert_eq!(s.pipeline_layout(), 63);
    assert_eq!(s.uniform_memory().buffer(), 50);
    let (first, second) = s.release(&mut vk);
    assert_eq!(first.unwrap(), vec![DestroyCall::DestroyDescriptorPool(61)]);
    assert_eq!(
        second.unwrap(),
        vec![DestroyCall::DestroyBuffer(50), DestroyCall::FreeMemory(51)]
    );
}

#[test]
fn memory_keeps_value_and_buffer() {
    let mut vk = root();
    let b = Buffer::new(&mut vk, 8, 9).unwrap();
    let m = Memory::new(42u32, b);
    assert_eq!(m.data, 42);
    assert_eq!(m.buffer.memory(), 9);
    assert_eq!(m.buffer.buffer(), 8);
    let kinds = [BufferBuilderType::Uniform, BufferBuilderType::Vertex];
    assert_ne!(kinds[0], kinds[1]);
}

#[test]
fn shader_module_destroyed_on_release() {
    let mut vk = root();
    let s = ShaderModule::new(&mut vk, 77).unwrap();
    assert_eq!(s.module(), 77);
    assert_eq!(s.release(&mut vk).unwrap(), vec![DestroyCall::DestroyShaderModule(77)]);
}

#[test]
fn buffer_size_checks_overflow() {
    assert_eq!(buffer_size(4, 6), Some(24));
    assert_eq!(buffer_size(0, u64::MAX), Some(0));
    assert_eq!(buffer_size(2, u64::MAX / 2 + 1), None);
}
