use engine_bridge::buffer::{BufferArbiter, ResponseBuffer, SHARED_RESPONSE_BUF_SIZE};

#[test]
fn small_responses_reuse_the_shared_slot() {
    let mut arbiter = BufferArbiter::new();
    assert!(arbiter.slot.is_none());

    let first = arbiter.acquire(&vec![7u8; 10]);
    match first {
        ResponseBuffer::Shared { len, reused } => {
            assert_eq!(len, 10);
            assert!(!reused, "the first small response creates the slot");
        }
        ResponseBuffer::Owned { .. } => panic!("small response must use the shared slot"),
    }
    assert!(arbiter.slot.is_some());

    let second = arbiter.acquire(&vec![9u8; 4]);
    match second {
        ResponseBuffer::Shared { len, reused } => {
            assert_eq!(len, 4);
            assert!(reused, "the second small response reuses the slot");
        }
        ResponseBuffer::Owned { .. } => panic!("small response must use the shared slot"),
    }
}

#[test]
fn threshold_sized_response_still_uses_the_slot() {
    let mut arbiter = BufferArbiter::new();
    let data = vec![3u8; SHARED_RESPONSE_BUF_SIZE];
    let r = arbiter.acquire(&data);
    assert!(matches!(r, ResponseBuffer::Shared { len, .. } if len == SHARED_RESPONSE_BUF_SIZE));
    assert_eq!(arbiter.read_response(&r), data);
}

#[test]
fn large_responses_get_fresh_allocations_each_time() {
    let mut arbiter = BufferArbiter::new();
    let data = vec![5u8; SHARED_RESPONSE_BUF_SIZE + 1];
    let first = arbiter.acquire(&data);
    let second = arbiter.acquire(&data);
    match (&first, &second) {
        (ResponseBuffer::Owned { bytes: a }, ResponseBuffer::Owned { bytes: b }) => {
            assert_eq!(a, &data);
            assert_eq!(b, &data);
            assert_ne!(a.as_ptr(), b.as_ptr(), "each large response is its own allocation");
        }
        _ => panic!("large responses must be owned buffers"),
    }
    assert!(arbiter.slot.is_none(), "large responses leave the slot alone");
}

#[test]
fn shared_slot_contents_are_overwritten_on_reuse() {
    let mut arbiter = BufferArbiter::new();
    let first = arbiter.acquire(&vec![1u8, 2, 3, 4]);
    assert_eq!(arbiter.read_response(&first), vec![1u8, 2, 3, 4]);
    let second = arbiter.acquire(&vec![9u8, 8]);
    assert_eq!(arbiter.read_response(&second), vec![9u8, 8]);
}
