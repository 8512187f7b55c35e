use realsense_rust::call::Call;
use realsense_rust::error::Error;
use realsense_rust::frame::marker::{Any, Depth, Motion, Video};
use realsense_rust::frame::Frame;
use realsense_rust::kind::Rs2Extension;
use realsense_rust::native::{Handle, Reply};
use realsense_rust::ownership::Owned;

fn frame_at(addr: usize) -> Frame<Any> {
    Frame::from_ptr(Handle::new(addr).unwrap())
}

#[test]
fn extend_asks_about_the_kind_s_extension() {
    let query = frame_at(0x20).try_extend_to::<Video>();
    assert_eq!(
        query.call,
        Call::IsFrameExtendableTo {
            frame: Handle::new(0x20).unwrap(),
            extension: Rs2Extension::VideoFrame,
        }
    );
    let query = frame_at(0x20).try_extend_to::<Depth>();
    assert_eq!(
        query.call,
        Call::IsFrameExtendableTo {
            frame: Handle::new(0x20).unwrap(),
            extension: Rs2Extension::DepthFrame,
        }
    );
}

#[test]
fn extendable_frame_keeps_its_handle_under_the_new_tag() {
    let extended = frame_at(0x20).try_extend_to::<Video>().resume(Reply::ok(1)).unwrap().unwrap();
    assert_eq!(extended.handle(), Handle::new(0x20).unwrap());
    assert_eq!(extended, Frame::<Video>::from_ptr(Handle::new(0x20).unwrap()));
}

#[test]
fn any_non_zero_answer_is_a_yes() {
    let extended = frame_at(0x20).try_extend_to::<Motion>().resume(Reply::ok(-7)).unwrap();
    assert!(extended.is_ok());
}

#[test]
fn frame_that_does_not_extend_comes_back_usable() {
    let unchanged =
        frame_at(0x20).try_extend_to::<Video>().resume(Reply::ok(0)).unwrap().unwrap_err();
    assert_eq!(unchanged, frame_at(0x20));
    let query = unchanged.data_size();
    assert_eq!(query.call, Call::GetFrameDataSize { frame: Handle::new(0x20).unwrap() });
    assert_eq!(query.resume(Reply::ok(64)), Ok(64));
    assert_eq!(
        unchanged.release(),
        vec![Call::ReleaseFrame { frame: Handle::new(0x20).unwrap() }]
    );
}

#[test]
fn failed_question_drops_the_frame_and_owes_its_release() {
    let dropped = frame_at(0x20)
        .try_extend_to::<Video>()
        .resume(Reply::failed(1, String::from("invalid frame")))
        .unwrap_err();
    assert_eq!(dropped.error, Error::Native(String::from("invalid frame")));
    assert_eq!(dropped.release, vec![Call::ReleaseFrame { frame: Handle::new(0x20).unwrap() }]);
}

#[test]
fn a_frame_can_be_asked_again_after_a_no() {
    let frame = frame_at(0x20);
    let frame = frame.try_extend_to::<Video>().resume(Reply::ok(0)).unwrap().unwrap_err();
    let depth = frame.try_extend_to::<Depth>().resume(Reply::ok(1)).unwrap().unwrap();
    assert_eq!(depth.handle(), Handle::new(0x20).unwrap());
}
