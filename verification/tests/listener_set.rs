use nacos_client::common::GroupKey;
use nacos_client::listeners::{Callback, ListenerSet, Recorder};
use std::sync::mpsc;

#[test]
fn test_new_listener_set() {
    let ls = ListenerSet::<Recorder<()>>::new();
    assert_eq!(ls.len(), 0);
}

#[test]
fn test_new_listener_for_chan() {
    let mut ls = ListenerSet::new();
    let gk = GroupKey::new_without_tenant("001", "pay").unwrap();
    ls.subscribe(gk, Callback::new(|_data: bool| {}));
    assert_eq!(ls.len(), 1);
}

#[test]
fn test_add_listener_to_set() {
    let (tx, rx) = mpsc::channel();
    let mut ls = ListenerSet::new();
    let gk = GroupKey::new_without_tenant("003", "pay").unwrap();
    ls.subscribe(gk, Callback::new(move |e: bool| tx.send(e).unwrap()));
    assert_eq!(ls.len(), 1);

    ls.notify(&true);
    assert!(rx.recv().is_ok());
}

#[test]
fn test_remove_listener_from_set() {
    let (tx, rx) = mpsc::channel();
    let mut ls = ListenerSet::new();
    let gk = GroupKey::new_without_tenant("003", "pay").unwrap();
    let sub = ls.subscribe(gk, Callback::new(move |e: bool| tx.send(e).unwrap()));
    ls.unsubscribe(sub);
    assert_eq!(ls.len(), 0);
    ls.notify(&true);
    assert!(rx.recv().is_err());
}

#[test]
fn subscribed_listener_receives_payload_exactly_once() {
    let mut ls = ListenerSet::new();
    let gk = GroupKey::new_without_tenant("d", "g").unwrap();
    let sub = ls.subscribe(gk, Recorder::<u32>::new());
    ls.notify(&7);
    assert_eq!(ls.len(), 1);
    let seen: Vec<u32> = ls.listener(&sub).unwrap().items().clone();
    assert_eq!(seen, vec![7]);
    ls.notify(&9);
    let seen: Vec<u32> = ls.listener(&sub).unwrap().items().clone();
    assert_eq!(seen, vec![7, 9]);
}

#[test]
fn two_subscriptions_under_one_key_both_fire() {
    let mut ls = ListenerSet::new();
    let first = ls.subscribe(GroupKey::new_without_tenant("d", "g").unwrap(), Recorder::<u32>::new());
    let second = ls.subscribe(GroupKey::new_without_tenant("d", "g").unwrap(), Recorder::<u32>::new());
    assert!(first != second);
    assert_eq!(ls.len(), 2);
    ls.notify(&5);
    assert_eq!(ls.listener(&first).unwrap().items().clone(), vec![5]);
    assert_eq!(ls.listener(&second).unwrap().items().clone(), vec![5]);
    ls.unsubscribe(first.clone());
    assert_eq!(ls.len(), 1);
    ls.notify(&6);
    assert!(ls.listener(&first).is_none());
    assert_eq!(ls.listener(&second).unwrap().items().clone(), vec![5, 6]);
}

#[test]
fn unsubscribing_an_unknown_handle_removes_nothing() {
    let mut other = ListenerSet::new();
    let foreign = other.subscribe(GroupKey::new_without_tenant("x", "y").unwrap(), Recorder::<u32>::new());
    let mut ls = ListenerSet::new();
    ls.subscribe(GroupKey::new_without_tenant("d", "g").unwrap(), Recorder::<u32>::new());
    ls.unsubscribe(foreign);
    assert_eq!(ls.len(), 1);
}

#[test]
fn closure_listener_is_called_once_for_each_payload() {
    let (tx, rx) = mpsc::channel();
    let mut ls = ListenerSet::new();
    let gk = GroupKey::new_without_tenant("003", "pay").unwrap();
    ls.subscribe(gk, Callback::new(move |e: u32| tx.send(e).unwrap()));
    ls.notify(&1);
    ls.notify(&2);
    assert_eq!(rx.try_recv(), Ok(1));
    assert_eq!(rx.try_recv(), Ok(2));
    assert!(rx.try_recv().is_err());
}
