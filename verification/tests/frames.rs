use realsense_rust::call::Call;
use realsense_rust::error::Error;
use realsense_rust::frame::marker::{Any, Depth, Disparity, Points, Pose, Video};
use realsense_rust::frame::Frame;
use realsense_rust::kind::{Float32, Float64, FrameMetaDataValue, Resolution, Span, TimestampDomain};
use realsense_rust::native::{Handle, Reply};
use realsense_rust::ownership::Owned;
use realsense_rust::sensor::SensorConstructionError;

fn at(addr: usize) -> Handle {
    Handle::new(addr).unwrap()
}

fn failure(message: &str) -> Error {
    Error::Native(String::from(message))
}

#[test]
fn frame_owns_the_handle_it_was_made_from() {
    let frame = Frame::<Any>::from_ptr(at(0x10));
    assert_eq!(frame.handle(), at(0x10));
    assert_eq!(frame.take(), at(0x10));
}

#[test]
fn frame_release_names_one_release_of_its_handle() {
    let frame = Frame::<Video>::from_ptr(at(0x10));
    assert_eq!(frame.release(), vec![Call::ReleaseFrame { frame: at(0x10) }]);
}

#[test]
fn metadata_asks_for_the_field_and_reads_it() {
    let frame = Frame::<Any>::from_ptr(at(0x10));
    let kind = FrameMetaDataValue { code: 5 };
    let query = frame.metadata(kind);
    assert_eq!(query.call, Call::GetFrameMetadata { frame: at(0x10), kind });
    assert_eq!(query.resume(Reply::ok(123_456i64)), Ok(123_456u64));
}

#[test]
fn metadata_of_a_frame_that_lacks_it_fails() {
    let frame = Frame::<Any>::from_ptr(at(0x10));
    let query = frame.metadata(FrameMetaDataValue { code: 5 });
    let reply = Reply::failed(0i64, String::from("metadata not available"));
    assert_eq!(query.resume(reply), Err(failure("metadata not available")));
}

#[test]
fn negative_metadata_reads_as_the_cast_does() {
    let frame = Frame::<Any>::from_ptr(at(0x10));
    let query = frame.metadata(FrameMetaDataValue { code: 0 });
    assert_eq!(query.resume(Reply::ok(-1i64)), Ok(u64::MAX));
}

#[test]
fn number_is_returned_as_it_stands() {
    let frame = Frame::<Any>::from_ptr(at(0x10));
    let query = frame.number();
    assert_eq!(query.call, Call::GetFrameNumber { frame: at(0x10) });
    assert_eq!(query.resume(Reply::ok(u64::MAX)), Ok(u64::MAX));
}

#[test]
fn number_fails_with_the_sdk_message() {
    let frame = Frame::<Any>::from_ptr(at(0x10));
    let reply = Reply::failed(7u64, String::from("null frame"));
    assert_eq!(frame.number().resume(reply), Err(failure("null frame")));
}

#[test]
fn data_size_reads_the_int_as_a_size() {
    let frame = Frame::<Any>::from_ptr(at(0x10));
    let query = frame.data_size();
    assert_eq!(query.call, Call::GetFrameDataSize { frame: at(0x10) });
    assert_eq!(query.resume(Reply::ok(614_400)), Ok(614_400usize));
}

#[test]
fn negative_size_wraps_as_the_cast_does() {
    let frame = Frame::<Any>::from_ptr(at(0x10));
    assert_eq!(frame.data_size().resume(Reply::ok(-1)), Ok(usize::MAX));
}

#[test]
fn timestamp_carries_the_bits_through() {
    let frame = Frame::<Any>::from_ptr(at(0x10));
    let query = frame.timestamp();
    assert_eq!(query.call, Call::GetFrameTimestamp { frame: at(0x10) });
    let bits = 1_600_000_000.25f64.to_bits();
    let timestamp = query.resume(Reply::ok(Float64 { bits })).unwrap();
    assert_eq!(f64::from_bits(timestamp.bits), 1_600_000_000.25);
}

#[test]
fn timestamp_domain_is_decoded() {
    let frame = Frame::<Any>::from_ptr(at(0x10));
    let query = frame.timestamp_domain();
    assert_eq!(query.call, Call::GetFrameTimestampDomain { frame: at(0x10) });
    assert_eq!(query.resume(Reply::ok(1)), Ok(TimestampDomain::SystemTime));
    assert_eq!(frame.timestamp_domain().resume(Reply::ok(0)), Ok(TimestampDomain::HardwareClock));
    assert_eq!(frame.timestamp_domain().resume(Reply::ok(2)), Ok(TimestampDomain::GlobalTime));
}

#[test]
fn unknown_timestamp_domain_is_an_error() {
    let frame = Frame::<Any>::from_ptr(at(0x10));
    assert_eq!(
        frame.timestamp_domain().resume(Reply::ok(3)),
        Err(Error::UnknownTimestampDomain(3))
    );
}

#[test]
fn timestamp_domain_of_a_failed_call_is_the_failure() {
    let frame = Frame::<Any>::from_ptr(at(0x10));
    let reply = Reply::failed(1u32, String::from("bad frame"));
    assert_eq!(frame.timestamp_domain().resume(reply), Err(failure("bad frame")));
}

#[test]
fn data_asks_for_size_then_address() {
    let frame = Frame::<Any>::from_ptr(at(0x10));
    let query = frame.data();
    assert_eq!(query.call, Call::GetFrameDataSize { frame: at(0x10) });
    let query = query.resume(Reply::ok(640)).unwrap();
    assert_eq!(query.call, Call::GetFrameData { frame: at(0x10) });
    assert_eq!(query.resume(Reply::ok(0x9000)), Ok(Span { start: at(0x9000), len: 640 }));
}

#[test]
fn data_stops_when_the_size_fails() {
    let frame = Frame::<Any>::from_ptr(at(0x10));
    let reply = Reply::failed(640, String::from("no size"));
    assert_eq!(frame.data().resume(reply), Err(failure("no size")));
}

#[test]
fn data_fails_when_the_address_fails_or_is_null() {
    let frame = Frame::<Any>::from_ptr(at(0x10));
    let query = frame.data().resume(Reply::ok(640)).unwrap();
    assert_eq!(
        query.resume(Reply::failed(0x9000, String::from("no data"))),
        Err(failure("no data"))
    );
    let query = frame.data().resume(Reply::ok(640)).unwrap();
    assert_eq!(query.resume(Reply::ok(0)), Err(Error::NullHandle));
}

#[test]
fn stream_profile_is_lent() {
    let frame = Frame::<Any>::from_ptr(at(0x10));
    let query = frame.stream_profile();
    assert_eq!(query.call, Call::GetFrameStreamProfile { frame: at(0x10) });
    assert_eq!(query.resume(Reply::ok(0x77)), Ok(at(0x77)));
    assert_eq!(frame.stream_profile().resume(Reply::ok(0)), Err(Error::NullHandle));
    assert_eq!(
        frame.stream_profile().resume(Reply::failed(0x77, String::from("gone"))),
        Err(failure("gone"))
    );
}

#[test]
fn sensor_of_a_frame_is_owned_by_its_wrapper() {
    let frame = Frame::<Any>::from_ptr(at(0x10));
    let query = frame.sensor();
    assert_eq!(query.call, Call::GetFrameSensor { frame: at(0x10) });
    let fetch = query.resume(Reply::ok(0x500)).unwrap();
    assert_eq!(fetch.call, Call::GetStreamProfiles { sensor: at(0x500) });
    let sensor = fetch.resume(Reply::ok(0x600)).unwrap();
    assert_eq!(sensor.handle(), at(0x500));
    assert_eq!(sensor.profile_list(), at(0x600));
    assert!(sensor.owns_sensor());
    assert_eq!(
        sensor.release(),
        vec![
            Call::DeleteStreamProfilesList { list: at(0x600) },
            Call::DeleteSensor { sensor: at(0x500) },
        ]
    );
}

#[test]
fn sensor_of_a_frame_fails_with_the_call() {
    let frame = Frame::<Any>::from_ptr(at(0x10));
    assert_eq!(
        frame.sensor().resume(Reply::failed(0x500, String::from("no sensor"))),
        Err(failure("no sensor"))
    );
    assert_eq!(frame.sensor().resume(Reply::ok(0)), Err(Error::NullHandle));
}

#[test]
fn sensor_of_a_frame_is_deleted_if_its_profiles_fail() {
    let frame = Frame::<Any>::from_ptr(at(0x10));
    let fetch = frame.sensor().resume(Reply::ok(0x500)).unwrap();
    let dropped = fetch.resume(Reply::failed(0, String::from("no profiles"))).unwrap_err();
    assert_eq!(
        dropped.error,
        SensorConstructionError::CouldNotGenerateStreamProfileList(String::from("no profiles"))
    );
    assert_eq!(dropped.release, vec![Call::DeleteSensor { sensor: at(0x500) }]);
}

#[test]
fn distance_passes_the_pixel() {
    let frame = Frame::<Depth>::from_ptr(at(0x10));
    let query = frame.get_distance(320, 240);
    assert_eq!(query.call, Call::DepthFrameGetDistance { frame: at(0x10), x: 320, y: 240 });
    let distance = query.resume(Reply::ok(Float32 { bits: 1.5f32.to_bits() })).unwrap();
    assert_eq!(f32::from_bits(distance.bits), 1.5);
}

#[test]
fn distance_outside_the_image_fails() {
    let frame = Frame::<Depth>::from_ptr(at(0x10));
    let reply = Reply::failed(Float32 { bits: 0 }, String::from("out of range value for argument \"x\""));
    assert_eq!(
        frame.get_distance(10_000, 0).resume(reply),
        Err(failure("out of range value for argument \"x\""))
    );
}

#[test]
fn baseline_carries_the_bits_through() {
    let frame = Frame::<Disparity>::from_ptr(at(0x10));
    let query = frame.get_baseline();
    assert_eq!(query.call, Call::DepthStereoFrameGetBaseline { frame: at(0x10) });
    let baseline = query.resume(Reply::ok(Float32 { bits: 50.0f32.to_bits() })).unwrap();
    assert_eq!(f32::from_bits(baseline.bits), 50.0);
}

#[test]
fn video_sizes_ask_their_own_calls() {
    let frame = Frame::<Video>::from_ptr(at(0x10));
    assert_eq!(frame.width().call, Call::GetFrameWidth { frame: at(0x10) });
    assert_eq!(frame.height().call, Call::GetFrameHeight { frame: at(0x10) });
    assert_eq!(frame.stride_in_bytes().call, Call::GetFrameStrideInBytes { frame: at(0x10) });
    assert_eq!(frame.bits_per_pixel().call, Call::GetFrameBitsPerPixel { frame: at(0x10) });
    assert_eq!(frame.width().resume(Reply::ok(640)), Ok(640));
    assert_eq!(frame.height().resume(Reply::ok(480)), Ok(480));
    assert_eq!(frame.stride_in_bytes().resume(Reply::ok(1280)), Ok(1280));
    assert_eq!(frame.bits_per_pixel().resume(Reply::ok(16)), Ok(16));
}

#[test]
fn resolution_asks_for_width_and_for_height() {
    let frame = Frame::<Video>::from_ptr(at(0x10));
    let query = frame.resolution();
    assert_eq!(query.call, Call::GetFrameWidth { frame: at(0x10) });
    let query = query.resume(Reply::ok(640)).unwrap();
    assert_eq!(query.call, Call::GetFrameHeight { frame: at(0x10) });
    assert_eq!(query.resume(Reply::ok(480)), Ok(Resolution { width: 640, height: 480 }));
}

#[test]
fn resolution_fails_with_either_call() {
    let frame = Frame::<Video>::from_ptr(at(0x10));
    assert_eq!(
        frame.resolution().resume(Reply::failed(0, String::from("no width"))),
        Err(failure("no width"))
    );
    let query = frame.resolution().resume(Reply::ok(640)).unwrap();
    assert_eq!(
        query.resume(Reply::failed(0, String::from("no height"))),
        Err(failure("no height"))
    );
}

#[test]
fn pose_hands_the_structure_through() {
    let frame = Frame::<Pose>::from_ptr(at(0x10));
    let query = frame.pose::<[f32; 3]>();
    assert_eq!(query.call, Call::PoseFrameGetPoseData { frame: at(0x10) });
    assert_eq!(query.resume(Reply::ok([1.0, 2.0, 3.0])), Ok([1.0, 2.0, 3.0]));
    let reply = Reply::failed([0.0f32; 3], String::from("not a pose"));
    assert_eq!(frame.pose::<[f32; 3]>().resume(reply), Err(failure("not a pose")));
}

#[test]
fn points_arrays_are_as_long_as_the_count() {
    let frame = Frame::<Points>::from_ptr(at(0x10));
    assert_eq!(frame.points_count().call, Call::GetFramePointsCount { frame: at(0x10) });
    assert_eq!(frame.points_count().resume(Reply::ok(1000)), Ok(1000));

    let query = frame.vertices();
    assert_eq!(query.call, Call::GetFramePointsCount { frame: at(0x10) });
    let query = query.resume(Reply::ok(1000)).unwrap();
    assert_eq!(query.call, Call::GetFrameVertices { frame: at(0x10) });
    assert_eq!(query.resume(Reply::ok(0x8000)), Ok(Span { start: at(0x8000), len: 1000 }));

    let query = frame.texture_coordinates();
    assert_eq!(query.call, Call::GetFramePointsCount { frame: at(0x10) });
    let query = query.resume(Reply::ok(1000)).unwrap();
    assert_eq!(query.call, Call::GetFrameTextureCoordinates { frame: at(0x10) });
    assert_eq!(query.resume(Reply::ok(0xa000)), Ok(Span { start: at(0xa000), len: 1000 }));
}

#[test]
fn points_arrays_fail_with_the_count() {
    let frame = Frame::<Points>::from_ptr(at(0x10));
    assert_eq!(
        frame.vertices().resume(Reply::failed(0, String::from("no points"))),
        Err(failure("no points"))
    );
    assert_eq!(
        frame.texture_coordinates().resume(Reply::failed(0, String::from("no points"))),
        Err(failure("no points"))
    );
}
