use bbsl::clamp_dimension;
use bbsl::Rect;
use bbsl::buffer::FrameBuffer;
use bbsl::buffer::shm_name;

#[test]
fn clamp_keeps_positive_dimensions() {
    let r = clamp_dimension(640, 480);
    assert_eq!(r.width, 640);
    assert_eq!(r.height, 480);
}

#[test]
fn clamp_raises_zero_components_to_one() {
    let r = clamp_dimension(0, 300);
    assert_eq!(r.width, 1);
    assert_eq!(r.height, 300);
    let r = clamp_dimension(400, 0);
    assert_eq!(r.width, 400);
    assert_eq!(r.height, 1);
    let r = clamp_dimension(0, 0);
    assert_eq!(r.width, 1);
    assert_eq!(r.height, 1);
}

#[test]
fn buffer_mapping_is_height_times_stride() {
    let fb = FrameBuffer::new(Rect { width: 4, height: 3 }, 1).unwrap();
    assert_eq!(fb.map_len, 3 * (4 * 4));
    assert_eq!(fb.stride(), 16);
    let fb = FrameBuffer::new(Rect { width: 1, height: 300 }, 2).unwrap();
    assert_eq!(fb.map_len, 1200);
    let fb = FrameBuffer::new(Rect { width: 1920, height: 1080 }, 3).unwrap();
    assert_eq!(fb.map_len, 1080 * 1920 * 4);
}

#[test]
fn buffer_rejects_unusable_dimensions() {
    assert!(FrameBuffer::new(Rect { width: 0, height: 10 }, 1).is_none());
    assert!(FrameBuffer::new(Rect { width: 10, height: 0 }, 1).is_none());
    assert!(FrameBuffer::new(Rect { width: -4, height: 10 }, 1).is_none());
    assert!(FrameBuffer::new(Rect { width: 10, height: -1 }, 1).is_none());
    // 65536 * 65536 * 4 bytes does not fit the protocol's signed 32-bit sizes.
    assert!(FrameBuffer::new(Rect { width: 65536, height: 65536 }, 1).is_none());
}

#[test]
fn shm_names_have_the_documented_shape() {
    let name = shm_name();
    assert_eq!(name.len(), 136);
    assert!(name.starts_with("/buffer-"));
    assert!(name[8..].chars().all(|c| c.is_ascii_alphanumeric()));
}
