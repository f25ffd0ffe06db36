use axnet::error::NetError;
use axnet::eventfd::{make_eventctx, EventFdCtx, EventFdFlag, EFD_CLOEXEC, EFD_NONBLOCK};

#[test]
fn eventfd_read_write() {
    let mut e = EventFdCtx::new(0, EventFdFlag::from_bits(EFD_NONBLOCK));
    assert!(e.flag().contains(EFD_NONBLOCK));
    assert!(!e.flag().contains(EFD_CLOEXEC));
    assert!(!e.readable());
    assert!(e.writable());
    let mut buf = [0u8; 8];
    assert_eq!(e.read(&mut buf), Err(NetError::WouldBlock));
    assert_eq!(e.write(&5u64.to_le_bytes()), Ok(8));
    assert_eq!(e.write(&7u64.to_le_bytes()), Ok(8));
    assert!(e.readable());
    assert_eq!(e.read(&mut buf), Ok(8));
    assert_eq!(u64::from_le_bytes(buf), 12);
    assert_eq!(e.read(&mut buf), Err(NetError::WouldBlock));
}

#[test]
fn eventfd_errors_and_wrap() {
    let mut e = EventFdCtx::new(u64::MAX, EventFdFlag::from_bits(0));
    assert_eq!(e.write(&[1u8, 0, 0]), Err(NetError::InvalidInput));
    let mut short = [0u8; 4];
    assert_eq!(e.read(&mut short), Err(NetError::InvalidInput));
    assert_eq!(e.write(&2u64.to_le_bytes()), Ok(8));
    let mut buf = [0u8; 8];
    assert_eq!(e.read(&mut buf), Ok(8));
    assert_eq!(u64::from_le_bytes(buf), 1);
}

#[test]
fn eventfd_shared() {
    let e = make_eventctx(3, EventFdFlag::from_bits(EFD_CLOEXEC));
    assert!(e.readable());
    assert!(e.flag().contains(EFD_CLOEXEC));
}
