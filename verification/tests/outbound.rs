use rpcmoq_lite::outbound::AbortLatch;

#[test]
fn new_latch_is_open() {
    let latch = AbortLatch::new();
    assert!(latch.is_open());
    assert_eq!(latch.code(), None);
}

#[test]
fn the_first_abort_wins() {
    let mut latch = AbortLatch::new();
    assert_eq!(latch.abort(3), Some(3));
    assert!(!latch.is_open());
    assert_eq!(latch.code(), Some(3));
    assert_eq!(latch.abort(5), None);
    assert_eq!(latch.abort(3), None);
    assert_eq!(latch.code(), Some(3));
    assert!(!latch.is_open());
}

#[test]
fn any_code_can_be_latched() {
    for code in [0, 1, 64, u32::MAX] {
        let mut latch = AbortLatch::new();
        assert_eq!(latch.abort(code), Some(code));
        assert_eq!(latch.code(), Some(code));
        assert_eq!(latch.abort(code.wrapping_add(1)), None);
        assert_eq!(latch.code(), Some(code));
    }
}
