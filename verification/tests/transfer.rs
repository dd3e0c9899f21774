use kcounter::error::DispatchError;
use kcounter::transfer::{Destination, TransferChannel};

#[test]
fn fresh_destination_is_empty() {
    let dest = Destination::new(8);
    assert_eq!(dest.free(), 8);
    assert!(dest.received().is_empty());
}

#[test]
fn write_within_bounds_is_delivered() {
    let mut dest = Destination::new(8);
    let mut channel = TransferChannel::new(8);
    assert_eq!(channel.write_slice(&mut dest, b"abc"), Ok(()));
    assert_eq!(dest.received(), b"abc");
    assert_eq!(dest.free(), 5);
}

#[test]
fn writes_accumulate_in_order() {
    let mut dest = Destination::new(8);
    let mut channel = TransferChannel::new(8);
    assert_eq!(channel.write_slice(&mut dest, b"abc"), Ok(()));
    assert_eq!(channel.write_slice(&mut dest, b"de"), Ok(()));
    assert_eq!(dest.received(), b"abcde");
    assert_eq!(dest.free(), 3);
}

#[test]
fn write_of_exactly_the_declared_size_is_delivered() {
    let mut dest = Destination::new(3);
    let mut channel = TransferChannel::new(3);
    assert_eq!(channel.write_slice(&mut dest, b"abc"), Ok(()));
    assert_eq!(dest.received(), b"abc");
    assert_eq!(dest.free(), 0);
}

#[test]
fn write_beyond_the_declared_size_faults() {
    let mut dest = Destination::new(64);
    let mut channel = TransferChannel::new(2);
    assert_eq!(
        channel.write_slice(&mut dest, b"abc"),
        Err(DispatchError::TransferFault)
    );
    assert!(dest.received().is_empty());
    assert_eq!(dest.free(), 64);
    // The refused write used up nothing of the declared size.
    assert_eq!(channel.write_slice(&mut dest, b"ab"), Ok(()));
    assert_eq!(dest.received(), b"ab");
}

#[test]
fn write_beyond_the_granted_region_faults() {
    let mut dest = Destination::new(2);
    let mut channel = TransferChannel::new(64);
    assert_eq!(
        channel.write_slice(&mut dest, b"abc"),
        Err(DispatchError::TransferFault)
    );
    assert!(dest.received().is_empty());
    assert_eq!(dest.free(), 2);
}

#[test]
fn declared_size_is_used_up_by_writes() {
    let mut dest = Destination::new(64);
    let mut channel = TransferChannel::new(4);
    assert_eq!(channel.write_slice(&mut dest, b"abc"), Ok(()));
    assert_eq!(
        channel.write_slice(&mut dest, b"de"),
        Err(DispatchError::TransferFault)
    );
    assert_eq!(channel.write_slice(&mut dest, b"d"), Ok(()));
    assert_eq!(dest.received(), b"abcd");
}

#[test]
fn unreachable_destination_takes_nothing() {
    let mut dest = Destination::new(0);
    let mut channel = TransferChannel::new(16);
    assert_eq!(
        channel.write_slice(&mut dest, b"a"),
        Err(DispatchError::TransferFault)
    );
    assert_eq!(channel.write_slice(&mut dest, b""), Ok(()));
    assert!(dest.received().is_empty());
}
