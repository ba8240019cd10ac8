use wgpu_kit::compute::{storage_size, workgroup_count, PARTICLE_COUNT, WORKGROUP_SIZE};

#[test]
fn the_particles_fill_sixteen_workgroups() {
    assert_eq!(workgroup_count(PARTICLE_COUNT, WORKGROUP_SIZE), 16);
}

#[test]
fn workgroups_round_up() {
    assert_eq!(workgroup_count(0, 64), 0);
    assert_eq!(workgroup_count(1, 64), 1);
    assert_eq!(workgroup_count(64, 64), 1);
    assert_eq!(workgroup_count(65, 64), 2);
    assert_eq!(workgroup_count(1025, 64), 17);
    assert_eq!(workgroup_count(7, 1), 7);
}

#[test]
fn workgroups_at_the_end_of_the_range() {
    assert_eq!(workgroup_count(u32::MAX, 1), u32::MAX);
    assert_eq!(workgroup_count(u32::MAX, 2), 2_147_483_648);
    assert_eq!(workgroup_count(u32::MAX, u32::MAX), 1);
    assert_eq!(workgroup_count(u32::MAX - 1, u32::MAX), 1);
    assert_eq!(workgroup_count(u32::MAX, 64), 67_108_864);
}

#[test]
fn workgroups_agree_with_the_standard_library() {
    for items in [0u32, 1, 63, 64, 65, 1000, 1024, 4095, 4096, 4097] {
        for size in [1u32, 2, 3, 64, 256] {
            let groups = workgroup_count(items, size);
            assert_eq!(groups, items.div_ceil(size));
            assert!(groups as u64 * size as u64 >= items as u64);
            if groups > 0 {
                assert!(((groups - 1) as u64) * (size as u64) < items as u64);
            }
        }
    }
}

#[test]
fn storage_of_the_particles() {
    assert_eq!(storage_size(48, PARTICLE_COUNT), Some(49_152));
    assert_eq!(storage_size(4, 1), Some(4));
    assert_eq!(storage_size(0, 7), Some(0));
    assert_eq!(storage_size(7, 0), Some(0));
}

#[test]
fn storage_beyond_64_bits() {
    assert_eq!(storage_size(u64::MAX, 2), None);
    assert_eq!(storage_size(1 << 32, u32::MAX), Some(((1u64 << 32) - 1) << 32));
    assert_eq!(storage_size(1 << 33, 1 << 31), None);
    assert_eq!(storage_size(u64::MAX, 1), Some(u64::MAX));
}
