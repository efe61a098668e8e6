use button_counter::{check_memory, FlashWrite, StoreError, MAGIC, REGION_SIZE};

fn sentinel(dev: &[u8], base: usize) -> [u8; 4] {
    [dev[base], dev[base + 1], dev[base + 2], dev[base + 3]]
}

#[test]
fn uninitialized_region_gets_magic_and_zeros() {
    let ws = check_memory(4096, [0, 0, 0, 0], 0).unwrap();
    assert_eq!(
        ws,
        vec![
            FlashWrite { offset: 0, bytes: vec![0x02, 0xcd, 0x01, 0xab] },
            FlashWrite { offset: 4, bytes: vec![0u8; 124] },
        ]
    );
    let mut dev = vec![0xffu8; 4096];
    for w in &ws {
        w.apply_to(&mut dev);
    }
    assert_eq!(&dev[0..4], &[0x02, 0xcd, 0x01, 0xab]);
    assert!(dev[4..128].iter().all(|&b| b == 0));
    assert_eq!(dev[128], 0xff);
}

#[test]
fn initialized_region_needs_no_write() {
    let ws = check_memory(4096, MAGIC.to_le_bytes(), 0x9000).unwrap();
    assert!(ws.is_empty());
}

#[test]
fn second_check_writes_nothing() {
    let mut dev = vec![0xffu8; 0xa000];
    let base = 0x9000usize;
    let first = check_memory(dev.len(), sentinel(&dev, base), base as u32).unwrap();
    assert_eq!(first.len(), 2);
    assert_eq!(first[0].offset, 0x9000);
    assert_eq!(first[1].offset, 0x9004);
    for w in &first {
        w.apply_to(&mut dev);
    }
    let second = check_memory(dev.len(), sentinel(&dev, base), base as u32).unwrap();
    assert!(second.is_empty());
}

#[test]
fn small_flash_is_refused() {
    assert_eq!(check_memory(127, [0, 0, 0, 0], 0), Err(StoreError::FlashTooSmall));
    assert_eq!(check_memory(0, MAGIC.to_le_bytes(), 0), Err(StoreError::FlashTooSmall));
}

#[test]
fn flash_of_exactly_the_region_size_is_enough() {
    assert!(check_memory(REGION_SIZE, [0, 0, 0, 0], 0).is_ok());
    assert_eq!(REGION_SIZE, 128);
}

#[test]
fn near_miss_sentinel_reinitializes() {
    let ws = check_memory(4096, [0x02, 0xcd, 0x01, 0xac], 0).unwrap();
    assert_eq!(ws.len(), 2);
}

#[test]
fn apply_to_replaces_only_the_written_bytes() {
    let mut dev = vec![7u8; 10];
    FlashWrite { offset: 3, bytes: vec![1, 2, 3] }.apply_to(&mut dev);
    assert_eq!(dev, vec![7, 7, 7, 1, 2, 3, 7, 7, 7, 7]);
}
