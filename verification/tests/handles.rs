use realsense_rust::error::Error;
use realsense_rust::native::{Handle, Reply};

#[test]
fn null_is_no_handle() {
    assert!(Handle::new(0).is_none());
}

#[test]
fn handle_keeps_its_address() {
    let handle = Handle::new(0x1000).unwrap();
    assert_eq!(handle.addr(), 0x1000);
}

#[test]
fn handles_at_one_address_are_equal() {
    assert_eq!(Handle::new(42), Handle::new(42));
    assert_ne!(Handle::new(42), Handle::new(43));
}

#[test]
fn empty_slot_vouches_for_the_value() {
    assert_eq!(Reply::ok(17u64).check(), Ok(17));
}

#[test]
fn filled_slot_is_the_failure() {
    let reply = Reply::failed(17u64, String::from("device unplugged"));
    assert_eq!(reply.check(), Err(Error::Native(String::from("device unplugged"))));
}

#[test]
fn value_of_a_failed_call_is_not_looked_at() {
    let one = Reply::failed(1u64, String::from("busy")).check();
    let other = Reply::failed(999u64, String::from("busy")).check();
    assert_eq!(one, other);
}

#[test]
fn reply_constructors_fill_the_fields() {
    let ok = Reply::ok(3i32);
    assert_eq!(ok.value, 3);
    assert_eq!(ok.error, None);
    let failed = Reply::failed(4i32, String::from("no"));
    assert_eq!(failed.value, 4);
    assert_eq!(failed.error, Some(String::from("no")));
}
