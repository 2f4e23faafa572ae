use rusterators::transfer::{ExchangingTransfer, StackBuildError, StackFactory, TransferError, DISPOSED};

#[test]
fn transfer_create_without_send() {
    let t = ExchangingTransfer::create_without_send();
    assert_eq!(t.send_target(), Err(TransferError::NoSendTarget));
}

#[test]
fn transfer_create_with_send() {
    let t = ExchangingTransfer::create_with_send(0x1000);
    assert_eq!(t.send_target(), Ok(0x1000));
    let t = ExchangingTransfer::create_with_send(DISPOSED);
    assert_eq!(t.send_target(), Err(TransferError::NoSendTarget));
}

#[test]
fn transfer_rebinds_on_every_switch() {
    let mut t = ExchangingTransfer::create_without_send();
    assert_eq!(t.switched(0x2000), Ok(()));
    assert_eq!(t.send_target(), Ok(0x2000));
    assert_eq!(t.switched(0x3000), Ok(()));
    assert_eq!(t.send_target(), Ok(0x3000));
    assert_eq!(t.switched(DISPOSED), Ok(()));
    assert_eq!(t.send_target(), Err(TransferError::NoSendTarget));
}

#[test]
fn transfer_dispose_does_not_allow_resume() {
    let mut t = ExchangingTransfer::create_with_send(0x4000);
    assert_eq!(t.dispose(), Ok(0x4000));
    assert_eq!(t.send_target(), Err(TransferError::NoSendTarget));
    assert_eq!(t.switched(0x5000), Err(TransferError::ResumedAfterDispose));
    assert_eq!(t.dispose(), Err(TransferError::NoSendTarget));
}

#[test]
fn stack_factory_sizes() {
    assert_eq!(StackFactory::of_size(12345).stack_size(), 12345);
    assert!(StackFactory::default_stack().stack_size() > 0);
}

#[test]
fn stack_factory_builds_stacks() {
    assert!(StackFactory::of_size(64 * 1024).build().is_ok());
    assert!(StackFactory::default_stack().build().is_ok());
    assert!(matches!(
        StackFactory::of_size(usize::MAX).build(),
        Err(StackBuildError::ExceedsMaximumSize(_))
    ));
}
