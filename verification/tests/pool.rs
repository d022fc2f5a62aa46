use bbsl::Rect;
use bbsl::buffer::FrameBuffer;
use bbsl::pool::BufferPool;

fn buffer(handle: u64) -> FrameBuffer {
    FrameBuffer::new(Rect { width: 8, height: 8 }, handle).unwrap()
}

#[test]
fn empty_pool_has_no_draw_target() {
    let mut p = BufferPool::new();
    assert_eq!(p.len(), 0);
    assert_eq!(p.rotate_for_draw(), None);
    assert_eq!(p.len(), 0);
}

#[test]
fn one_buffer_is_not_enough_to_rotate() {
    let mut p = BufferPool::new();
    p.push(buffer(1));
    assert_eq!(p.len(), 1);
    assert_eq!(p.rotate_for_draw(), None);
    assert_eq!(p.len(), 1);
    assert_eq!(p.get(0).handle, 1);
}

#[test]
fn full_pool_alternates_buffers() {
    let mut p = BufferPool::new();
    p.push(buffer(1));
    p.push(buffer(2));
    // Buffer 2 was presented last; the next draw targets buffer 1 and
    // presents it.
    assert_eq!(p.rotate_for_draw(), Some(1));
    assert_eq!(p.get(0).handle, 2);
    assert_eq!(p.get(1).handle, 1);
    // The next frame swings back to buffer 2.
    assert_eq!(p.rotate_for_draw(), Some(1));
    assert_eq!(p.get(1).handle, 2);
    assert_eq!(p.len(), 2);
}

#[test]
fn take_all_empties_the_pool_in_order() {
    let mut p = BufferPool::new();
    p.push(buffer(1));
    p.push(buffer(2));
    let out = p.take_all();
    assert_eq!(p.len(), 0);
    assert_eq!(out.len(), 2);
    assert_eq!(out[0].handle, 1);
    assert_eq!(out[1].handle, 2);
    assert_eq!(p.rotate_for_draw(), None);
}
