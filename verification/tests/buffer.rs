use arducam_mipicamera::c;
use arducam_mipicamera::c::Call;
use arducam_mipicamera::Buffer;

fn header(alloc_size: u32, length: u32, pts: i64) -> c::Buffer {
    c::Buffer { priv_: 0, data: 0x5000, alloc_size, length, flags: 0, pts, userdata: 0 }
}

fn frame(length: u32, pts: i64) -> Buffer {
    Buffer::from_raw_pointer(0x4000, header(6, length, pts), vec![10, 11, 12, 13, 14, 15])
}

#[test]
fn data_has_the_recorded_length() {
    for length in 0..=6u32 {
        let buffer = frame(length, 0);
        assert_eq!(buffer.data().len(), length as usize);
        assert_eq!(buffer.data().len(), buffer.raw_buffer().length as usize);
        assert!(buffer.data().len() <= buffer.raw_buffer().alloc_size as usize);
    }
}

#[test]
fn data_is_the_start_of_the_allocation() {
    assert_eq!(frame(4, 0).data(), &[10, 11, 12, 13][..]);
    assert_eq!(frame(6, 0).data(), &[10, 11, 12, 13, 14, 15][..]);
}

#[test]
fn data_of_an_empty_frame_is_empty() {
    assert!(frame(0, 0).data().is_empty());
    let nothing = Buffer::from_raw_pointer(1, header(0, 0, 0), Vec::new());
    assert!(nothing.data().is_empty());
}

#[test]
fn timestamp_unknown_is_none() {
    assert_eq!(frame(1, c::TIME_UNKNOWN).timestamp(), None);
    assert_eq!(frame(1, i64::MIN).timestamp(), None);
}

#[test]
fn timestamp_passes_every_other_value_through() {
    for pts in [i64::MIN + 1, -1_000_000, -1, 0, 1, 33_366, i64::MAX] {
        assert_eq!(frame(1, pts).timestamp(), Some(pts));
    }
}

#[test]
fn raw_buffer_is_the_header() {
    let raw = c::Buffer {
        priv_: 0x11,
        data: 0x22,
        alloc_size: 6,
        length: 3,
        flags: c::MMAL_BUFFER_HEADER_FLAG_KEYFRAME | c::MMAL_BUFFER_HEADER_FLAG_FRAME_END,
        pts: 77,
        userdata: 0x33,
    };
    let buffer = Buffer::from_raw_pointer(0x4000, raw, vec![0; 6]);
    assert_eq!(*buffer.raw_buffer(), raw);
    assert_eq!(buffer.raw_buffer().flags, 12);
    assert_eq!(buffer.raw_buffer().userdata, 0x33);
}

#[test]
fn buffer_raw_pointer_is_the_address() {
    assert_eq!(frame(1, 0).raw_pointer(), 0x4000);
}

#[test]
fn release_names_the_buffer() {
    assert_eq!(frame(1, 0).release(), Call::ReleaseBuffer { buffer: 0x4000 });
}

#[test]
fn release_after_reading_names_the_same_buffer() {
    let buffer = frame(3, 5);
    let total: u32 = buffer.data().iter().map(|b| u32::from(*b)).sum();
    assert_eq!(total, 33);
    assert_eq!(buffer.timestamp(), Some(5));
    assert_eq!(buffer.release(), Call::ReleaseBuffer { buffer: 0x4000 });
}

#[test]
fn is_valid_accepts_a_frame_within_its_allocation() {
    assert!(Buffer::is_valid(0x4000, &header(6, 6, 0), &vec![0; 6]));
    assert!(Buffer::is_valid(0x4000, &header(6, 0, 0), &vec![0; 6]));
    assert!(Buffer::is_valid(1, &header(0, 0, 0), &Vec::new()));
}

#[test]
fn is_valid_refuses_the_null_address() {
    assert!(!Buffer::is_valid(0, &header(6, 3, 0), &vec![0; 6]));
}

#[test]
fn is_valid_refuses_a_length_past_the_allocation() {
    assert!(!Buffer::is_valid(0x4000, &header(6, 7, 0), &vec![0; 6]));
    assert!(!Buffer::is_valid(0x4000, &header(0, 1, 0), &Vec::new()));
}

#[test]
fn is_valid_refuses_an_allocation_of_another_size() {
    assert!(!Buffer::is_valid(0x4000, &header(6, 3, 0), &vec![0; 5]));
    assert!(!Buffer::is_valid(0x4000, &header(6, 3, 0), &vec![0; 7]));
}
