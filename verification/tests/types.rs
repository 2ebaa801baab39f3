use network_direct::completion_queue::{poll_has_result, ND_CQ_NOTIFY_ANY, ND_CQ_NOTIFY_ERRORS, ND_CQ_NOTIFY_SOLICITED};
use network_direct::flags::{
    ND_MR_FLAG_ALLOW_LOCAL_WRITE, ND_MR_FLAG_ALLOW_REMOTE_READ, ND_MR_FLAG_ALLOW_REMOTE_WRITE,
    ND_MR_FLAG_DO_NOT_SECURE_VM, ND_OP_FLAG_ALLOW_WRITE, ND_OP_FLAG_INLINE, ND_OP_FLAG_READ_FENCE,
    ND_OP_FLAG_SEND_AND_SOLICIT_EVENT, ND_OP_FLAG_SILENT_SUCCESS,
};
use network_direct::{
    Adapter, BindFlags, Buffer, CompletionQueue, Connector, FlagSet, InvalidateFlags, Listener,
    LocalToken, MemoryRegion, MemoryWindow, NotifyType, QueuePair, ReadFlags, ReadLimits,
    RegisterFlags, RemoteToken, RequestContext, SendFlags, WriteFlags,
};

#[test]
fn notify_type_values() {
    assert_eq!(NotifyType::Errors.to_u32(), ND_CQ_NOTIFY_ERRORS);
    assert_eq!(NotifyType::Any.to_u32(), ND_CQ_NOTIFY_ANY);
    assert_eq!(NotifyType::Solicited.to_u32(), ND_CQ_NOTIFY_SOLICITED);
    assert_eq!(NotifyType::Errors.to_u32(), 0);
    assert_eq!(NotifyType::Any.to_u32(), 1);
    assert_eq!(NotifyType::Solicited.to_u32(), 2);
}

#[test]
fn poll_stops_at_first_result() {
    assert!(!poll_has_result(0));
    assert!(poll_has_result(1));
}

#[test]
fn read_limits_default() {
    let l = ReadLimits::default();
    assert_eq!(l, ReadLimits { inbound_read_limit: 0, outbound_read_limit: 0 });
}

#[test]
fn request_context() {
    assert_eq!(RequestContext::default(), RequestContext(0));
    assert_eq!(RequestContext(5).as_ptr(), 5);
    let wide = RequestContext((1u128 << 64) | 7);
    assert_eq!(wide.as_ptr(), ((1u128 << 64) | 7) as usize);
    if usize::BITS == 64 {
        assert_eq!(wide.as_ptr(), 7);
    }
}

#[test]
fn register_flags() {
    let local = RegisterFlags::from_bits(ND_MR_FLAG_ALLOW_LOCAL_WRITE).unwrap();
    let remote_write = RegisterFlags::from_bits(ND_MR_FLAG_ALLOW_REMOTE_WRITE).unwrap();
    assert!(remote_write.contains(&local));
    assert!(!local.contains(&remote_write));
    assert_eq!(RegisterFlags::all().bits(), 0x8000_000F);
    assert_eq!(RegisterFlags::empty().bits(), 0);
    assert!(RegisterFlags::empty().is_empty());
    assert!(RegisterFlags::from_bits(0x10).is_none());
    assert_eq!(RegisterFlags::from_bits_truncate(0xFFFF_FFFF).bits(), 0x8000_000F);
    assert_eq!(RegisterFlags::from_bits_retain(0x10).bits(), 0x10);
    let both = local.union(&RegisterFlags::from_bits(ND_MR_FLAG_ALLOW_REMOTE_READ).unwrap());
    assert_eq!(both.bits(), 3);
    assert_eq!(both.intersection(&remote_write).bits(), 1);
    assert_eq!(both.difference(&local).bits(), 2);
    assert!(both.intersects(&remote_write));
    let secure = RegisterFlags::from_bits(ND_MR_FLAG_DO_NOT_SECURE_VM).unwrap();
    assert!(!both.intersects(&secure));
    let mut f = RegisterFlags::empty();
    f.insert(&secure);
    assert!(f.contains(&secure));
    f.remove(&secure);
    assert!(f.is_empty());
}

#[test]
fn operation_flags_known_bits() {
    assert_eq!(SendFlags::all().bits(), ND_OP_FLAG_SILENT_SUCCESS | ND_OP_FLAG_READ_FENCE | ND_OP_FLAG_SEND_AND_SOLICIT_EVENT | ND_OP_FLAG_INLINE);
    assert_eq!(BindFlags::all().bits(), 0x1B);
    assert_eq!(InvalidateFlags::all().bits(), 0x3);
    assert_eq!(ReadFlags::all().bits(), 0x3);
    assert_eq!(WriteFlags::all().bits(), 0x23);
    assert!(ReadFlags::from_bits(ND_OP_FLAG_INLINE).is_none());
    assert!(WriteFlags::from_bits(ND_OP_FLAG_INLINE).is_some());
    assert!(SendFlags::from_bits(ND_OP_FLAG_ALLOW_WRITE).is_none());
    assert_eq!(BindFlags::from_bits_truncate(0xFF).bits(), 0x1B);
    assert_eq!(InvalidateFlags::from_bits_truncate(0xFF).bits(), 0x3);
}

#[test]
fn tokens() {
    assert_eq!(RemoteToken(3).0, 3);
    assert_eq!(LocalToken(4).0, 4);
    assert_ne!(RemoteToken(3), RemoteToken(4));
}

struct Bytes(Vec<u8>);

impl Buffer for Bytes {
    fn as_ptr(&self) -> usize {
        self.0.as_ptr() as usize
    }
    fn byte_len(&self) -> usize {
        self.0.len()
    }
}

#[test]
fn handles_hold_their_reference() {
    assert_eq!(*Adapter::from(1u64).handle(), 1);
    assert_eq!(*CompletionQueue::from(2u64).handle(), 2);
    assert_eq!(*Connector::from(3u64).handle(), 3);
    assert_eq!(*Listener::from(4u64).handle(), 4);
    assert_eq!(*MemoryWindow::from(5u64).handle(), 5);
    assert_eq!(*QueuePair::from(6u64).handle(), 6);
    let region = MemoryRegion::from(7u64, Bytes(vec![1, 2, 3]));
    assert_eq!(*region.handle(), 7);
    assert_eq!(region.buffer.byte_len(), 3);
    let cloned = Adapter::from(String::from("a")).clone();
    assert_eq!(cloned.handle(), "a");
}
