use gpu_offload::bytes::{bytes_word, decode_words, push_words, word_bytes};
use gpu_offload::channel::{FrameChannel, Received, FRAME_CHANNEL_CAPACITY};

#[test]
fn sixth_send_waits_until_a_receive() {
    assert_eq!(FRAME_CHANNEL_CAPACITY, 5);
    let mut ch: FrameChannel<u32> = FrameChannel::new(FRAME_CHANNEL_CAPACITY);
    for i in 0..5u32 {
        assert_eq!(ch.try_send(i), Ok(()));
    }
    assert!(ch.is_full());
    assert_eq!(ch.try_send(5), Err(5));
    assert_eq!(ch.len(), 5);
    assert_eq!(ch.try_recv(), Received::Item(0));
    assert!(!ch.is_full());
    assert_eq!(ch.try_send(5), Ok(()));
    assert_eq!(ch.try_send(6), Err(6));
}

#[test]
fn frames_come_out_in_production_order_then_close() {
    let mut ch: FrameChannel<u32> = FrameChannel::new(3);
    assert_eq!(ch.try_recv(), Received::Empty);
    ch.try_send(10).unwrap();
    ch.try_send(11).unwrap();
    ch.close();
    assert!(ch.is_closed());
    assert_eq!(ch.try_send(12), Err(12));
    assert_eq!(ch.try_recv(), Received::Item(10));
    assert_eq!(ch.try_recv(), Received::Item(11));
    assert_eq!(ch.try_recv(), Received::Closed);
}

#[test]
fn zero_capacity_takes_nothing() {
    let mut ch: FrameChannel<u8> = FrameChannel::new(0);
    assert_eq!(ch.try_send(1), Err(1));
}

#[test]
fn words_are_little_endian() {
    assert_eq!(word_bytes(0x1234_5678), [0x78, 0x56, 0x34, 0x12]);
    assert_eq!(bytes_word(0x78, 0x56, 0x34, 0x12), 0x1234_5678);
    let mut out = vec![0xff];
    push_words(&mut out, &[1, 0x0100_0000]);
    assert_eq!(out, vec![0xff, 1, 0, 0, 0, 0, 0, 0, 1]);
    assert_eq!(decode_words(&out[1..]), vec![1, 0x0100_0000]);
    assert_eq!(decode_words(&[1, 2, 3]), Vec::<u32>::new());
}
