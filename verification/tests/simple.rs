use msgpacknet::simple::{SimpleCallback, SimpleCallbackEvent};

#[test]
fn simple_callback_ids() {
    let cb: SimpleCallback<String, u64> = SimpleCallback::new(7);
    assert_eq!(cb.node_id(), 7);
    assert_eq!(cb.create_init_msg(), 7);
    assert_eq!(cb.handle_init_msg(&9), Some(9));
}

#[test]
fn simple_callback_events_in_order() {
    let mut cb: SimpleCallback<String, u64> = SimpleCallback::new(1);
    assert_eq!(cb.recv(), None);
    cb.on_connected(&2);
    cb.handle_message(&2, "hello".to_string());
    cb.on_disconnected(&2);
    assert_eq!(cb.recv(), Some(SimpleCallbackEvent::Connected(2)));
    assert_eq!(cb.recv(), Some(SimpleCallbackEvent::Msg(2, "hello".to_string())));
    assert_eq!(cb.recv(), Some(SimpleCallbackEvent::Disconnected(2)));
    assert_eq!(cb.recv(), None);
}
