use realsense_rust::call::Call;
use realsense_rust::error::Error;
use realsense_rust::frame::marker::Motion;
use realsense_rust::frame::motion::{MotionData, MOTION_DATA_LEN};
use realsense_rust::frame::Frame;
use realsense_rust::native::{Handle, Reply};

fn motion_frame() -> Frame<Motion> {
    Frame::from_ptr(Handle::new(0x30).unwrap())
}

fn bytes_of(x: f32, y: f32, z: f32) -> Vec<u8> {
    let mut bytes = Vec::new();
    bytes.extend_from_slice(&x.to_ne_bytes());
    bytes.extend_from_slice(&y.to_ne_bytes());
    bytes.extend_from_slice(&z.to_ne_bytes());
    bytes
}

#[test]
fn motion_sample_takes_twelve_bytes() {
    assert_eq!(MOTION_DATA_LEN, 12);
}

#[test]
fn motion_buffer_is_the_frame_data() {
    let query = motion_frame().motion_buffer();
    assert_eq!(query.call, Call::GetFrameDataSize { frame: Handle::new(0x30).unwrap() });
    assert_eq!(query.follow_up, Call::GetFrameData { frame: Handle::new(0x30).unwrap() });
}

#[test]
fn motion_data_is_the_first_three_floats() {
    let bytes = bytes_of(0.5, -9.81, 1.25);
    let sample = motion_frame().get_motion_data(&bytes).unwrap();
    assert_eq!(f32::from_ne_bytes(sample.x), 0.5);
    assert_eq!(f32::from_ne_bytes(sample.y), -9.81);
    assert_eq!(f32::from_ne_bytes(sample.z), 1.25);
}

#[test]
fn motion_data_keeps_the_byte_order() {
    let bytes: Vec<u8> = (1..=12).collect();
    assert_eq!(
        motion_frame().get_motion_data(&bytes),
        Ok(MotionData { x: [1, 2, 3, 4], y: [5, 6, 7, 8], z: [9, 10, 11, 12] })
    );
}

#[test]
fn motion_data_ignores_what_follows_the_sample() {
    let mut bytes = bytes_of(1.0, 2.0, 3.0);
    bytes.extend_from_slice(&[0xff; 20]);
    let sample = motion_frame().get_motion_data(&bytes).unwrap();
    assert_eq!(f32::from_ne_bytes(sample.z), 3.0);
}

#[test]
fn short_motion_buffer_fails() {
    let bytes = [0u8; 11];
    assert_eq!(motion_frame().get_motion_data(&bytes), Err(Error::ShortMotionData(11)));
}

#[test]
fn empty_motion_buffer_fails() {
    assert_eq!(motion_frame().get_motion_data(&[]), Err(Error::ShortMotionData(0)));
}

#[test]
fn every_length_below_twelve_fails_and_twelve_does_not() {
    let bytes = [7u8; 12];
    for len in 0..12 {
        assert_eq!(
            motion_frame().get_motion_data(&bytes[..len]),
            Err(Error::ShortMotionData(len))
        );
    }
    assert!(motion_frame().get_motion_data(&bytes).is_ok());
}

#[test]
fn motion_data_through_the_buffer_queries() {
    let frame = motion_frame();
    let bytes = bytes_of(0.0, 0.0, 9.8);
    let span = frame
        .motion_buffer()
        .resume(Reply::ok(bytes.len() as i32))
        .unwrap()
        .resume(Reply::ok(bytes.as_ptr() as usize))
        .unwrap();
    assert_eq!(span.len, 12);
    let sample = frame.get_motion_data(&bytes[..span.len]).unwrap();
    assert_eq!(f32::from_ne_bytes(sample.z), 9.8);
}
