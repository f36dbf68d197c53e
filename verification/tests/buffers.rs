use svbar::buffers::FrameBuffer;

#[test]
fn buffer_reuse() {
    let mut frames = FrameBuffer::new();
    let first = frames.acquire_buffer();
    frames.mark_presented(first);
    let second = frames.acquire_buffer();
    assert_ne!(first, second);

    let mut frames = FrameBuffer::new();
    let first = frames.acquire_buffer();
    frames.mark_presented(first);
    frames.mark_released(first);
    let second = frames.acquire_buffer();
    assert_eq!(first, second);
}

#[test]
fn first_acquisition_makes_a_buffer() {
    let mut frames = FrameBuffer::new();
    assert_eq!(frames.current(), None);
    assert_eq!(frames.buffers(), 0);
    assert_eq!(frames.acquire_buffer(), 0);
    assert_eq!(frames.current(), Some(0));
    assert_eq!(frames.buffers(), 1);
    assert!(!frames.is_outstanding(0));
}

#[test]
fn unpresented_buffer_is_handed_out_again() {
    let mut frames = FrameBuffer::new();
    assert_eq!(frames.acquire_buffer(), 0);
    assert_eq!(frames.acquire_buffer(), 0);
    assert_eq!(frames.buffers(), 1);
}

#[test]
fn two_buffers_alternate_while_the_presenter_lags() {
    let mut frames = FrameBuffer::new();
    let a = frames.acquire_buffer();
    frames.mark_presented(a);
    let b = frames.acquire_buffer();
    frames.mark_presented(b);
    assert_eq!((a, b), (0, 1));
    frames.mark_released(a);
    assert_eq!(frames.acquire_buffer(), a);
    assert_eq!(frames.buffers(), 2);
    frames.mark_presented(a);
    frames.mark_released(b);
    assert_eq!(frames.acquire_buffer(), b);
    assert_eq!(frames.buffers(), 2);
}

#[test]
fn third_buffer_only_when_both_are_outstanding() {
    let mut frames = FrameBuffer::new();
    let a = frames.acquire_buffer();
    frames.mark_presented(a);
    let b = frames.acquire_buffer();
    frames.mark_presented(b);
    let c = frames.acquire_buffer();
    assert_eq!(c, 2);
    assert!(frames.is_outstanding(a) && frames.is_outstanding(b) && !frames.is_outstanding(c));
    assert_eq!(frames.current(), Some(c));
}

#[test]
fn current_buffer_wins_over_a_lower_free_one() {
    let mut frames = FrameBuffer::new();
    let a = frames.acquire_buffer();
    frames.mark_presented(a);
    let b = frames.acquire_buffer();
    frames.mark_released(a);
    assert_eq!(frames.acquire_buffer(), b);
}

#[test]
fn unknown_handles_are_ignored() {
    let mut frames = FrameBuffer::new();
    frames.mark_presented(5);
    frames.mark_released(5);
    assert_eq!(frames.buffers(), 0);
    assert!(!frames.is_outstanding(5));
    assert_eq!(frames.acquire_buffer(), 0);
}
