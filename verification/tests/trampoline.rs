use artinchip_boot::trampoline::{bss_word_count, stack_top, zero_words, STACK_SIZE};

#[test]
fn zeroing_loop_clears_exact_range() {
    let mut mem = vec![1u32, 2, 3, 4, 5];
    zero_words(&mut mem, 1, 3);
    assert_eq!(mem, vec![1, 0, 0, 4, 5]);
    zero_words(&mut mem, 0, 0);
    assert_eq!(mem, vec![1, 0, 0, 4, 5]);
    zero_words(&mut mem, 0, 5);
    assert_eq!(mem, vec![0, 0, 0, 0, 0]);
}

#[test]
fn bss_bounds_to_store_count() {
    assert_eq!(bss_word_count(0x4000_0100, 0x4000_0120), 8);
    assert_eq!(bss_word_count(0x4000_0100, 0x4000_0100), 0);
}

#[test]
fn stack_placement() {
    assert_eq!(STACK_SIZE, 1024);
    assert_eq!(stack_top(0x4000_0000, STACK_SIZE), 0x4000_0400);
}
