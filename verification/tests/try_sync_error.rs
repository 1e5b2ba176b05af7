use desync::scheduler::try_sync_error::TrySyncError;
use std::io::ErrorKind;

#[test]
fn busy_queue_would_block() {
    assert_eq!(TrySyncError::Busy.into_error_kind(), ErrorKind::WouldBlock);
    let kind: ErrorKind = TrySyncError::Busy.into();
    assert_eq!(kind, ErrorKind::WouldBlock);
}
