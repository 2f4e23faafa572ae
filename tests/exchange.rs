use rusterators::exchange::{ExchangeContainerRef, ValueExchangeContainer};

#[test]
fn exchange_exchange_container_prepare() {
    let container = ValueExchangeContainer::prepare_exchange(1);
    if let ValueExchangeContainer::Value(content) = container {
        assert_eq!(content, 1)
    } else {
        panic!("value should exists")
    }
}

#[test]
fn exchange_exchange_container_has_content_correct_result() {
    let container = ValueExchangeContainer::prepare_exchange(1);
    assert_eq!(container.has_content(), true);
    let container = ValueExchangeContainer::<usize>::Empty;
    assert_eq!(container.has_content(), false);
}

#[test]
fn exchange_exchange_container_receive_content() {
    let mut container = ValueExchangeContainer::prepare_exchange(1);
    assert_eq!(container.receive_content(), 1);
    assert_eq!(container.has_content(), false);
}

#[test]
fn transfer_exchange_container_prepare() {
    let container = ValueExchangeContainer::prepare_exchange(1);
    if let ValueExchangeContainer::Value(content) = container {
        assert_eq!(content, 1)
    } else {
        panic!("value should exists")
    }
}

#[test]
fn transfer_exchange_container_has_content_correct_result() {
    let container = ValueExchangeContainer::prepare_exchange(1);
    assert_eq!(container.has_content(), true);
    let container = ValueExchangeContainer::<usize>::Empty;
    assert_eq!(container.has_content(), false);
}

#[test]
fn transfer_exchange_container_receive_content() {
    let mut container = ValueExchangeContainer::prepare_exchange(1);
    assert_eq!(container.receive_content(), 1);
    assert_eq!(container.has_content(), false);
}

#[test]
fn exchange_ref_new() {
    let mut container = ValueExchangeContainer::prepare_exchange(1);
    let container_ref = ExchangeContainerRef::new(&mut container);
    assert_eq!(container_ref.0.receive_content(), 1);
    let mut container = ValueExchangeContainer::<i32>::Empty;
    let container_ref = ExchangeContainerRef::new(&mut container);
    assert_eq!(container_ref.0.has_content(), false);
}

#[test]
fn exchange_ref_send() {
    let mut container = ValueExchangeContainer::<i32>::Empty;
    let mut container_ref = ExchangeContainerRef::new(&mut container);
    container_ref.send_value(2);
    assert_eq!(container.receive_content(), 2)
}

#[test]
fn exchange_ref_receive() {
    let mut container = ValueExchangeContainer::<i32>::Empty;
    let mut container_ref = ExchangeContainerRef::new(&mut container);
    let mut alt_container = ValueExchangeContainer::prepare_exchange(3);
    container_ref.receive_ref(&mut alt_container);
    assert_eq!(container_ref.0.receive_content(), 3)
}

#[test]
fn exchange_ref_receive_rebinds() {
    let mut first = ValueExchangeContainer::<i32>::Empty;
    let mut second = ValueExchangeContainer::<i32>::Empty;
    {
        let mut container_ref = ExchangeContainerRef::new(&mut first);
        container_ref.receive_ref(&mut second);
        container_ref.send_value(3);
    }
    assert!(!first.has_content());
    assert_eq!(second.receive_content(), 3);
}

#[test]
fn exchange_default_is_empty() {
    let container: ValueExchangeContainer<u8> = ValueExchangeContainer::default();
    assert!(!container.has_content());
    let container: ValueExchangeContainer<u8> = ValueExchangeContainer::from(9);
    assert!(matches!(container, ValueExchangeContainer::Value(9)));
}

#[test]
fn exchange_round_trip_leaves_slot_empty() {
    let mut container = ValueExchangeContainer::prepare_exchange(String::from("payload"));
    assert_eq!(container.receive_content(), "payload");
    assert!(!container.has_content());
}

#[test]
fn exchange_slot_keeps_order() {
    let mut slot = ValueExchangeContainer::<u32>::Empty;
    let mut received = Vec::new();
    for v in [5u32, 1, 4, 2] {
        {
            let mut peer = ExchangeContainerRef::new(&mut slot);
            peer.send_value(v);
        }
        received.push(slot.receive_content());
    }
    assert_eq!(received, vec![5, 1, 4, 2]);
    assert!(!slot.has_content());
}
