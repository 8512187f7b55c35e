use realsense_rust::call::Call;
use realsense_rust::frame::composite::CompositeFrame;
use realsense_rust::frame::marker::{Any, Composite, Video};
use realsense_rust::frame::Frame;
use realsense_rust::native::{Handle, Reply};
use realsense_rust::ownership::{Owned, Slot};
use realsense_rust::sensor::Sensor;
use std::collections::HashMap;

/// Stands in for the SDK: counts how often each handle is freed.
struct HandleTable {
    releases: HashMap<usize, u32>,
}

fn new_table() -> HandleTable {
    HandleTable { releases: HashMap::new() }
}

fn perform(table: &mut HandleTable, calls: Vec<Call>) {
    for call in calls {
        let freed = match call {
            Call::ReleaseFrame { frame } => frame,
            Call::DeleteSensor { sensor } => sensor,
            Call::DeleteStreamProfilesList { list } => list,
            other => panic!("not a releasing call: {:?}", other),
        };
        *table.releases.entry(freed.addr()).or_insert(0) += 1;
    }
}

fn released(table: &HandleTable, addr: usize) -> u32 {
    table.releases.get(&addr).copied().unwrap_or(0)
}

#[test]
fn dropping_without_take_releases_exactly_once() {
    let mut table = new_table();
    let mut slot = Slot::new(Frame::<Any>::from_ptr(Handle::new(0x40).unwrap()));
    perform(&mut table, slot.release());
    assert_eq!(released(&table, 0x40), 1);
}

#[test]
fn a_second_drop_releases_nothing() {
    let mut table = new_table();
    let mut slot = Slot::new(Frame::<Any>::from_ptr(Handle::new(0x40).unwrap()));
    perform(&mut table, slot.release());
    perform(&mut table, slot.release());
    perform(&mut table, slot.release());
    assert_eq!(released(&table, 0x40), 1);
}

#[test]
fn dropping_after_take_releases_nothing() {
    let mut table = new_table();
    let mut slot = Slot::new(Frame::<Video>::from_ptr(Handle::new(0x41).unwrap()));
    let frame = slot.take().unwrap();
    perform(&mut table, slot.release());
    assert_eq!(released(&table, 0x41), 0);
    assert_eq!(frame.take(), Handle::new(0x41).unwrap());
}

#[test]
fn a_taken_wrapper_is_released_by_its_new_holder() {
    let mut table = new_table();
    let mut old = Slot::new(Frame::<Any>::from_ptr(Handle::new(0x42).unwrap()));
    let mut new = Slot::new(old.take().unwrap());
    perform(&mut table, old.release());
    perform(&mut table, new.release());
    assert_eq!(released(&table, 0x42), 1);
}

#[test]
fn many_frames_are_each_released_once() {
    let mut table = new_table();
    let mut slots: Vec<Slot<Frame<Any>>> = (1..=50usize)
        .map(|addr| Slot::new(Frame::from_ptr(Handle::new(addr).unwrap())))
        .collect();
    for slot in slots.iter_mut() {
        perform(&mut table, slot.release());
    }
    for slot in slots.iter_mut() {
        perform(&mut table, slot.release());
    }
    for addr in 1..=50usize {
        assert_eq!(released(&table, addr), 1);
    }
}

#[test]
fn slot_gives_access_while_full() {
    let mut slot = Slot::new(Frame::<Any>::from_ptr(Handle::new(0x43).unwrap()));
    assert_eq!(slot.get().map(|frame| frame.handle()), Some(Handle::new(0x43).unwrap()));
    assert!(slot.take().is_some());
    assert!(slot.get().is_none());
    assert!(slot.take().is_none());
}

#[test]
fn retagging_neither_releases_nor_duplicates() {
    let mut table = new_table();
    let frame = Frame::<Any>::from_ptr(Handle::new(0x44).unwrap());
    let video = frame.try_extend_to::<Video>().resume(Reply::ok(1)).unwrap().unwrap();
    assert_eq!(released(&table, 0x44), 0);
    let mut slot = Slot::new(video);
    perform(&mut table, slot.release());
    assert_eq!(released(&table, 0x44), 1);
}

#[test]
fn a_refused_retag_neither_releases_nor_duplicates() {
    let mut table = new_table();
    let frame = Frame::<Any>::from_ptr(Handle::new(0x45).unwrap());
    let frame = frame.try_extend_to::<Video>().resume(Reply::ok(0)).unwrap().unwrap_err();
    assert_eq!(released(&table, 0x45), 0);
    perform(&mut table, frame.release());
    assert_eq!(released(&table, 0x45), 1);
}

#[test]
fn a_failed_retag_releases_once() {
    let mut table = new_table();
    let frame = Frame::<Any>::from_ptr(Handle::new(0x46).unwrap());
    let dropped = frame
        .try_extend_to::<Video>()
        .resume(Reply::failed(0, String::from("broken")))
        .unwrap_err();
    perform(&mut table, dropped.release);
    assert_eq!(released(&table, 0x46), 1);
}

#[test]
fn borrowed_sensor_is_not_deleted() {
    let mut table = new_table();
    let sensor =
        Sensor::try_from(Handle::new(0x50).unwrap()).resume(Reply::ok(0x60)).unwrap();
    let mut slot = Slot::new(sensor);
    perform(&mut table, slot.release());
    perform(&mut table, slot.release());
    assert_eq!(released(&table, 0x50), 0);
    assert_eq!(released(&table, 0x60), 1);
}

#[test]
fn owned_sensor_is_deleted_after_its_list() {
    let sensor = Sensor::owning(Handle::new(0x50).unwrap()).resume(Reply::ok(0x60)).unwrap();
    assert_eq!(
        sensor.release(),
        vec![
            Call::DeleteStreamProfilesList { list: Handle::new(0x60).unwrap() },
            Call::DeleteSensor { sensor: Handle::new(0x50).unwrap() },
        ]
    );
}

#[test]
fn composite_frame_is_released_once() {
    let mut table = new_table();
    let mut slot = Slot::new(CompositeFrame::from_ptr(Handle::new(0x70).unwrap()));
    perform(&mut table, slot.release());
    perform(&mut table, slot.release());
    assert_eq!(released(&table, 0x70), 1);
}

#[test]
fn iteration_takes_over_the_composite_s_release() {
    let mut table = new_table();
    let composite = Frame::<Composite>::from_ptr(Handle::new(0x71).unwrap());
    let iter = composite.try_into_iter().resume(Reply::ok(2)).unwrap();
    assert_eq!(released(&table, 0x71), 0);
    perform(&mut table, iter.release());
    assert_eq!(released(&table, 0x71), 1);
}

#[test]
fn iteration_that_cannot_start_releases_the_composite() {
    let mut table = new_table();
    let composite = Frame::<Composite>::from_ptr(Handle::new(0x72).unwrap());
    let dropped = composite
        .try_into_iter()
        .resume(Reply::failed(0, String::from("no count")))
        .unwrap_err();
    perform(&mut table, dropped.release);
    assert_eq!(released(&table, 0x72), 1);
}
