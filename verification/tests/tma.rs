use cuda_kernels::nvfp4_tma_matmul::tma::{
    TmaNvfp4DeviceScaleDescriptorKey, TmaNvfp4DeviceScaleDescriptors,
};

fn key(seed: u64) -> TmaNvfp4DeviceScaleDescriptorKey {
    TmaNvfp4DeviceScaleDescriptorKey::new([seed, seed + 1, seed + 2, seed + 3], 128, 256, 512)
}

#[test]
fn keys_hold_addresses_and_shape() {
    let a = key(10);
    assert_eq!(a.input_address, 10);
    assert_eq!(a.weight_scale_address, 13);
    assert_eq!((a.token_count, a.input_dim, a.output_dim), (128, 256, 512));
    assert_eq!(a, key(10));
    assert_ne!(a, key(11));
}

#[test]
fn inserted_descriptors_are_found_again() {
    let mut cache = TmaNvfp4DeviceScaleDescriptors::new(0x1000);
    assert!(!cache.activate(key(0)));
    assert!(!cache.needs_chunk());
    assert_eq!(cache.insert(key(0), None), 0x1000);
    assert_eq!(cache.a_deviceptr(), 0x1000);
    assert_eq!(cache.insert(key(100), None), 0x1000 + 512);
    assert_eq!(cache.b_deviceptr(), 0x1000 + 512 + 128);
    assert!(cache.activate(key(0)));
    assert_eq!(cache.a_deviceptr(), 0x1000);
    assert_eq!(cache.b_deviceptr(), 0x1000 + 128);
    assert_eq!(cache.a_scales_deviceptr(), 0x1000 + 256);
    assert_eq!(cache.b_scales_deviceptr(), 0x1000 + 384);
    assert!(!cache.activate(key(50)));
    assert_eq!(cache.a_deviceptr(), 0x1000);
}

#[test]
fn a_full_chunk_opens_the_next() {
    let mut cache = TmaNvfp4DeviceScaleDescriptors::new(0x10_0000);
    for entry in 0..64u64 {
        assert!(!cache.needs_chunk());
        assert_eq!(cache.insert(key(entry * 8), None), 0x10_0000 + entry * 512);
    }
    assert!(cache.needs_chunk());
    assert_eq!(cache.insert(key(9999), Some(0x90_0000)), 0x90_0000);
    assert_eq!(cache.insert(key(19999), None), 0x90_0000 + 512);
    assert!(cache.activate(key(63 * 8)));
    assert_eq!(cache.b_scales_deviceptr(), 0x10_0000 + 63 * 512 + 384);
}

#[test]
fn next_entry_base_predicts_insert() {
    let mut cache = TmaNvfp4DeviceScaleDescriptors::new(0x2000);
    assert_eq!(cache.len(), 0);
    assert_eq!(cache.active_entry(), None);
    assert!(!cache.contains(key(7)));
    let predicted = cache.next_entry_base(None);
    assert_eq!(predicted, 0x2000);
    assert_eq!(cache.insert(key(7), None), predicted);
    assert!(cache.contains(key(7)));
    assert_eq!(cache.len(), 1);
    assert_eq!(cache.active_entry(), Some(0));
    assert_eq!(cache.next_entry_base(None), 0x2000 + 512);
}
