use fluid_simulation::Array3D;
use fluid_simulation::Coords;
use fluid_simulation::Sized3D;
use fluid_simulation::Swapable;
use fluid_simulation::Swapchain;
use fluid_simulation::SwapchainPack;

#[test]
fn swapchain_rw_pair_distinct_buffers() {
    let mut chain = Swapchain::new(vec![10u32, 20u32]);
    let (r, w) = chain.rw_pair();
    assert_eq!(*r, 10);
    assert_eq!(*w, 20);
    *w = 99;
    // Writing through the producer side must not disturb the snapshot.
    assert_eq!(*chain.consumer(), 10);
    assert_eq!(chain.current_consumer, 0);
    assert_eq!(chain.current_producer, 1);
}

#[test]
fn swapchain_swap_commits_the_write_buffer() {
    let mut chain = Swapchain::new(vec![1u32, 2u32]);
    *chain.producer() = 50;
    chain.swap_buffers();
    // The new consumer is the old producer buffer, content untouched.
    assert_eq!(chain.current_consumer, 1);
    assert_eq!(chain.current_producer, 0);
    assert_eq!(*chain.consumer(), 50);
    // A second swap toggles back; the committed state is kept.
    chain.swap_buffers();
    assert_eq!(chain.current_consumer, 0);
    assert_eq!(chain.current_producer, 1);
    assert_eq!(*chain.consumer(), 50);
}

#[test]
fn swapchain_producer_inherits_committed_state() {
    let mut chain = Swapchain::new(vec![0u32, 0u32]);
    *chain.producer() = 7;
    chain.swap_buffers();
    // After the swap the write side starts from the committed state.
    let (r, w) = chain.rw_pair();
    assert_eq!(*r, 7);
    assert_eq!(*w, 7);
}

#[test]
fn swapchain_ring_of_three() {
    let mut chain = Swapchain::new(vec![1u32, 2u32, 3u32]);
    chain.swap_buffers();
    assert_eq!(chain.current_consumer, 1);
    assert_eq!(chain.current_producer, 2);
    chain.swap_buffers();
    assert_eq!(chain.current_consumer, 2);
    assert_eq!(chain.current_producer, 0);
    chain.swap_buffers();
    assert_eq!(chain.current_consumer, 0);
    assert_eq!(chain.current_producer, 1);
}

#[test]
fn swapchain_of_grids() {
    let make = || Array3D::new(Coords(2, 2, 2), 0.0f32);
    let mut chain = Swapchain::new(vec![make(), make()]);
    assert_eq!(chain.size(), Coords(2, 2, 2));
    *chain.producer().write(&Coords(1, 1, 1)) = 3.5;
    // The snapshot is untouched until the write buffer is committed.
    assert_eq!(*chain.consumer().read(&Coords(1, 1, 1)), 0.0);
    chain.swap_buffers();
    assert_eq!(*chain.consumer().read(&Coords(1, 1, 1)), 3.5);
    // After the swap the new write buffer starts from the committed state.
    let (r, w) = chain.rw_pair();
    assert_eq!(*r.read(&Coords(1, 1, 1)), 3.5);
    assert_eq!(*w.read(&Coords(1, 1, 1)), 3.5);
}

#[test]
fn swapchain_pack_swaps_in_lock_step() {
    let chain_a = Swapchain::new(vec![1u32, 2u32]);
    let chain_b = Swapchain::new(vec![30u32, 40u32]);
    let mut pack = SwapchainPack::new(vec![chain_a, chain_b]);
    assert_eq!(pack.len(), 2);
    *pack.chain_mut(0).producer() = 5;
    pack.swap_buffers();
    assert_eq!(pack.chain(0).current_consumer, 1);
    assert_eq!(pack.chain(1).current_consumer, 1);
    assert_eq!(*pack.chain(0).consumer(), 5);
    assert_eq!(*pack.chain(1).consumer(), 40);
}
