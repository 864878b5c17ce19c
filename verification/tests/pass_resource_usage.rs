use vki::flags::{
    BufferUsageFlags, TextureUsageFlags, BUFFER_USAGE_STORAGE, BUFFER_USAGE_UNIFORM, TEXTURE_USAGE_SAMPLED,
    TEXTURE_USAGE_STORAGE,
};
use vki::pass_resource_usage::{CommandBufferResourceUsage, PassResourceUsageTracker, PassType};
use vki::resources::{Buffer, Texture};
use vki::types::{BufferDescriptor, Extent3D, TextureDescriptor, TextureDimension, TextureFormat};

fn buffer(handle: u64) -> Buffer {
    Buffer { handle, descriptor: BufferDescriptor { size: 64, usage: BufferUsageFlags { bits: BUFFER_USAGE_STORAGE } } }
}

fn texture(handle: u64) -> Texture {
    Texture {
        handle,
        descriptor: TextureDescriptor {
            size: Extent3D { width: 4, height: 4, depth: 1 },
            array_layer_count: 1,
            mip_level_count: 1,
            sample_count: 1,
            dimension: TextureDimension::D2,
            format: TextureFormat::R8Unorm,
            usage: TextureUsageFlags { bits: TEXTURE_USAGE_STORAGE },
        },
    }
}

#[test]
fn usages_of_one_resource_are_merged() {
    let mut tracker = PassResourceUsageTracker::new();
    tracker.buffer_used_as(buffer(1), BufferUsageFlags { bits: BUFFER_USAGE_UNIFORM });
    tracker.buffer_used_as(buffer(2), BufferUsageFlags { bits: BUFFER_USAGE_STORAGE });
    tracker.buffer_used_as(buffer(1), BufferUsageFlags { bits: BUFFER_USAGE_STORAGE });
    assert!(!tracker.storage_used_multiple_times());
    tracker.buffer_used_as(buffer(1), BufferUsageFlags { bits: BUFFER_USAGE_STORAGE });
    assert!(tracker.storage_used_multiple_times());
    let usage = tracker.acquire_resource_usage();
    assert_eq!(usage.buffers.len(), 2);
    assert_eq!(usage.buffers[0].1.bits, BUFFER_USAGE_UNIFORM | BUFFER_USAGE_STORAGE);
    assert_eq!(usage.buffers[1].1.bits, BUFFER_USAGE_STORAGE);
    let again = tracker.acquire_resource_usage();
    assert!(again.buffers.is_empty() && again.textures.is_empty());
}

#[test]
fn texture_storage_twice_is_noticed() {
    let mut tracker = PassResourceUsageTracker::new();
    tracker.texture_used_as(texture(9), TextureUsageFlags { bits: TEXTURE_USAGE_SAMPLED });
    tracker.texture_used_as(texture(9), TextureUsageFlags { bits: TEXTURE_USAGE_STORAGE });
    assert!(!tracker.storage_used_multiple_times());
    tracker.texture_used_as(texture(9), TextureUsageFlags { bits: TEXTURE_USAGE_STORAGE });
    assert!(tracker.storage_used_multiple_times());
    assert_eq!(PassResourceUsageTracker::validate_usages(PassType::Render), Ok(()));
}

#[test]
fn top_level_resources_are_kept_once() {
    let mut usage = CommandBufferResourceUsage::new();
    usage.insert_top_level_buffer(buffer(1));
    usage.insert_top_level_buffer(buffer(1));
    usage.insert_top_level_texture(texture(2));
    usage.insert_top_level_texture(texture(3));
    usage.insert_top_level_texture(texture(2));
    assert_eq!(usage.top_level_buffers.len(), 1);
    assert_eq!(usage.top_level_textures.iter().map(|t| t.handle).collect::<Vec<_>>(), vec![2, 3]);
}

#[test]
fn a_pass_holds_each_buffer_once_with_the_union_of_its_usages() {
    let mut tracker = PassResourceUsageTracker::new();
    let uniform = BufferUsageFlags { bits: BUFFER_USAGE_UNIFORM };
    let storage = BufferUsageFlags { bits: BUFFER_USAGE_STORAGE };
    tracker.buffer_used_as(buffer(1), uniform);
    tracker.buffer_used_as(buffer(2), storage);
    tracker.buffer_used_as(buffer(1), storage);
    tracker.buffer_used_as(buffer(1), uniform);
    let usage = tracker.acquire_resource_usage();
    assert_eq!(
        usage.buffers,
        vec![
            (buffer(1), BufferUsageFlags { bits: BUFFER_USAGE_UNIFORM | BUFFER_USAGE_STORAGE }),
            (buffer(2), storage),
        ]
    );
}

#[test]
fn a_pass_holds_each_texture_once_with_the_union_of_its_usages() {
    let mut tracker = PassResourceUsageTracker::new();
    let sampled = TextureUsageFlags { bits: TEXTURE_USAGE_SAMPLED };
    let storage = TextureUsageFlags { bits: TEXTURE_USAGE_STORAGE };
    tracker.texture_used_as(texture(7), sampled);
    tracker.texture_used_as(texture(3), sampled);
    tracker.texture_used_as(texture(7), storage);
    tracker.texture_used_as(texture(3), sampled);
    let usage = tracker.acquire_resource_usage();
    assert_eq!(
        usage.textures,
        vec![
            (texture(7), TextureUsageFlags { bits: TEXTURE_USAGE_SAMPLED | TEXTURE_USAGE_STORAGE }),
            (texture(3), sampled),
        ]
    );
    assert!(usage.buffers.is_empty());
}
