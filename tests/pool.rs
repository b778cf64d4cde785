use scene_renderer::UniformPool;

#[test]
fn empty_pool_skips_updates() {
    let pool = UniformPool::new("locals", 64);
    assert_eq!(pool.buffer_count(), 0);
    assert_eq!(pool.update_uniform(0), None);
}

#[test]
fn allocation_replaces_every_slot() {
    let mut pool = UniformPool::new("locals", 64);
    pool.alloc_buffers(3);
    assert_eq!(pool.buffer_count(), 3);
    assert_eq!(pool.update_uniform(2), Some(2));
    assert_eq!(pool.update_uniform(3), None);
    pool.alloc_buffers(1);
    assert_eq!(pool.buffer_count(), 1);
    assert_eq!(pool.update_uniform(1), None);
    assert_eq!(pool.label(), "locals");
    assert_eq!(pool.size(), 64);
}
