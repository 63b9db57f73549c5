use msgpacknet::queue::Step;
use msgpacknet::socket::{ConnectionRequest, Delivery, Error, Event, Node};
use std::time::Duration;

fn ready<R>(s: Step<R>) -> R {
    match s {
        Step::Ready(r) => r,
        Step::Wait => panic!("expected a result, the reader would wait"),
    }
}

#[test]
fn node_create() {
    let _ = Node::<u64, u64, u64>::new(0, 0);
}

#[test]
fn node_send_self() {
    let mut node = Node::new(0, 0);
    assert!(node.listen().is_ok());
    assert!(node.send(&0, &42).is_ok());
    assert_eq!(ready(node.receive()), Event::Message(0, 42));
    assert!(!node.is_connected(&0));
}

#[test]
fn node_defaults() {
    let node = Node::<u64, u64, String>::new(3, "hi".to_string());
    assert_eq!(node.node_id(), 3);
    assert_eq!(node.init_message(), "hi".to_string());
    assert_eq!(node.connection_timeout(), Duration::from_secs(60));
    assert_eq!(node.stats_halflife_time(), Duration::from_secs(60));
    assert!(node.listeners().is_empty());
    assert!(node.connections().is_empty());
    let plain = Node::<u64, u64, ()>::without_init(4);
    assert_eq!(plain.node_id(), 4);
}

#[test]
fn node_settings() {
    let mut node = Node::<u64, u64, u64>::new(0, 0);
    node.set_connection_timeout(Duration::from_millis(1500));
    node.set_stats_halflife_time(Duration::from_secs(2));
    node.set_init_message(11);
    assert_eq!(node.connection_timeout(), Duration::from_millis(1500));
    assert_eq!(node.stats_halflife_time(), Duration::from_secs(2));
    assert_eq!(node.init_message(), 11);
}

#[test]
fn node_send_not_connected() {
    let mut node = Node::<u64, u64, u64>::new(0, 0);
    match node.send(&5, &1) {
        Err(Error::NotConnected(d)) => assert_eq!(d, 5),
        _ => panic!("expected NotConnected"),
    }
    assert!(matches!(node.receive(), Step::Wait));
}

#[test]
fn node_send_remote_route() {
    let mut node = Node::<u64, u64, u64>::new(0, 0);
    node.add_connection(1, 17);
    assert_eq!(ready(node.receive()), Event::Connected(1));
    assert_eq!(node.send(&1, &42).ok(), Some(Delivery::Remote(17)));
    assert!(matches!(node.receive(), Step::Wait));
}

#[test]
fn node_registry_add_and_lose() {
    let mut node = Node::<u64, u64, u64>::new(0, 0);
    assert_eq!(node.get_connection(&1), None);
    node.add_connection(1, 10);
    assert!(node.is_connected(&1));
    assert_eq!(node.get_connection(&1), Some(10));
    node.del_connection(&1, 10);
    assert!(!node.is_connected(&1));
    assert_eq!(ready(node.receive()), Event::Connected(1));
    assert_eq!(ready(node.receive()), Event::Disconnected(1));
}

#[test]
fn node_duplicate_connection_loss_is_silent() {
    let mut node = Node::<u64, u64, u64>::new(0, 0);
    node.add_connection(1, 10);
    node.add_connection(1, 11);
    node.del_connection(&1, 10);
    assert_eq!(node.get_connection(&1), Some(11));
    assert_eq!(ready(node.receive()), Event::Connected(1));
    assert_eq!(ready(node.receive()), Event::Connected(1));
    assert!(matches!(node.receive(), Step::Wait));
}

#[test]
fn node_connection_request_accept_and_reject() {
    let mut node = Node::<u64, u64, String>::new(0, "me".to_string());
    let req = ConnectionRequest::new(21, "you".to_string(), 2);
    assert_eq!(req.socket(), 21);
    assert_eq!(req.init_message(), "you");
    assert_eq!(*req.node_id(), 2);
    node.handle_connection_request(ConnectionRequest::new(21, "you".to_string(), 2));
    assert_eq!(ready(node.receive()), Event::ConnectionRequest(ConnectionRequest::new(21, "x".to_string(), 2)));
    req.accept(&mut node);
    assert_eq!(node.get_connection(&2), Some(21));
    assert_eq!(ready(node.receive()), Event::Connected(2));
    let other = ConnectionRequest::<u64, u64, String>::new(22, "they".to_string(), 3);
    assert_eq!(other.reject(), 22);
    assert!(!node.is_connected(&3));
}

#[test]
fn node_connect_accepts_and_returns_peer() {
    let mut node = Node::<u64, u64, u64>::new(0, 0);
    assert!(node.connect_request().is_ok());
    let id = node.connect(ConnectionRequest::new(5, 9, 9));
    assert_eq!(id, 9);
    assert!(node.is_connected(&9));
    assert_eq!(ready(node.receive()), Event::Connected(9));
}

#[test]
fn node_listener_registration() {
    let mut node = Node::<u64, u64, u64>::new(0, 0);
    assert_eq!(node.add_listener(Ok(3)).ok(), Some(3));
    let failed = node.add_listener(Err(std::io::Error::new(std::io::ErrorKind::AddrInUse, "in use")));
    assert!(matches!(failed, Err(Error::OpenError(_))));
    assert_eq!(node.listeners(), &vec![3]);
}

#[test]
fn node_close_sequence() {
    let mut node = Node::<u64, u64, u64>::new(0, 0);
    node.add_listener(Ok(1)).ok();
    node.add_listener(Ok(2)).ok();
    node.handle_message(4, 44);
    node.start_close();
    assert!(matches!(node.listen(), Err(Error::AlreadyClosed)));
    assert!(matches!(node.connect_request(), Err(Error::AlreadyClosed)));
    assert_eq!(node.next_listener_to_close(), Some(2));
    assert_eq!(node.next_listener_to_close(), Some(1));
    assert_eq!(node.next_listener_to_close(), None);
    node.finish_close();
    // messages arriving after the close are dropped
    node.handle_message(4, 45);
    assert_eq!(ready(node.receive()), Event::Message(4, 44));
    assert_eq!(ready(node.receive()), Event::Closing);
    assert_eq!(ready(node.receive()), Event::Closed);
    assert_eq!(ready(node.receive()), Event::Closed);
    assert_eq!(ready(node.receive_timeout(false)), Some(Event::Closed));
}

#[test]
fn node_receive_timeout() {
    let mut node = Node::<u64, u64, u64>::new(0, 0);
    assert!(matches!(node.receive_timeout(false), Step::Wait));
    node.handle_message(1, 2);
    assert_eq!(ready(node.receive_timeout(true)), None);
    assert_eq!(ready(node.receive_timeout(false)), Some(Event::Message(1, 2)));
}

#[test]
fn connection_request_equality() {
    let a = ConnectionRequest::<u64, u64, u64>::new(1, 5, 2);
    let b = ConnectionRequest::<u64, u64, u64>::new(1, 6, 2);
    let c = ConnectionRequest::<u64, u64, u64>::new(3, 5, 2);
    assert!(a == b);
    assert!(a != c);
}

#[test]
fn node_close_finishes_with_a_listener_left() {
    let mut node = Node::<u64, u64, u64>::new(0, 0);
    node.add_listener(Ok(1)).ok();
    node.add_listener(Ok(2)).ok();
    node.start_close();
    // the shutdown of the first listener taken fails: the close is still finished
    assert_eq!(node.next_listener_to_close(), Some(2));
    node.finish_close();
    assert_eq!(ready(node.receive()), Event::Closing);
    assert_eq!(ready(node.receive()), Event::Closed);
    assert_eq!(ready(node.receive()), Event::Closed);
}
