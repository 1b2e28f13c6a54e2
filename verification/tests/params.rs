use audio_reactive::params::{ParameterPublisher, ParameterStore, ParameterValue};

#[test]
fn new_store_is_empty() {
    let store: ParameterStore<f32> = ParameterStore::new();
    assert_eq!(store.len(), 0);
    assert!(store.names().is_empty());
    assert!(!store.contains("time"));
    assert_eq!(store.get("time"), None);
}

#[test]
fn set_then_snapshot_round_trip() {
    let mut publisher: ParameterPublisher<f32> = ParameterPublisher::new();
    publisher.set("freq_1".to_string(), ParameterValue::Vector4(1.0, 2.0, 3.0, 4.0));
    publisher.set("gain".to_string(), ParameterValue::Scalar(0.25));

    publisher.set("time".to_string(), ParameterValue::Scalar(5.0));

    let snapshot = publisher.snapshot();
    assert_eq!(snapshot.get("time"), Some(ParameterValue::Scalar(5.0)));
    assert_eq!(snapshot.get("freq_1"), Some(ParameterValue::Vector4(1.0, 2.0, 3.0, 4.0)));
    assert_eq!(snapshot.get("gain"), Some(ParameterValue::Scalar(0.25)));
    assert_eq!(snapshot.len(), 3);
}

#[test]
fn set_on_empty_publisher_holds_only_that_name() {
    let mut publisher: ParameterPublisher<f32> = ParameterPublisher::new();
    publisher.set("time".to_string(), ParameterValue::Scalar(5.0));
    let snapshot = publisher.snapshot();
    assert_eq!(snapshot.len(), 1);
    assert_eq!(snapshot.names(), vec!["time".to_string()]);
    assert_eq!(snapshot.get("time"), Some(ParameterValue::Scalar(5.0)));
}

#[test]
fn last_write_wins() {
    let mut publisher: ParameterPublisher<f32> = ParameterPublisher::new();
    publisher.set("time".to_string(), ParameterValue::Scalar(1.0));
    publisher.set("other".to_string(), ParameterValue::Scalar(9.0));
    publisher.set("time".to_string(), ParameterValue::Scalar(2.0));
    let snapshot = publisher.snapshot();
    assert_eq!(snapshot.get("time"), Some(ParameterValue::Scalar(2.0)));
    assert_eq!(snapshot.get("other"), Some(ParameterValue::Scalar(9.0)));
    assert_eq!(snapshot.len(), 2);
    assert_eq!(snapshot.names(), vec!["time".to_string(), "other".to_string()]);
}

#[test]
fn a_write_may_change_the_kind_of_value() {
    let mut store: ParameterStore<f32> = ParameterStore::new();
    store.insert("p".to_string(), ParameterValue::Scalar(1.0));
    store.insert("p".to_string(), ParameterValue::Vector4(1.0, 2.0, 3.0, 4.0));
    assert_eq!(store.get("p"), Some(ParameterValue::Vector4(1.0, 2.0, 3.0, 4.0)));
    assert_eq!(store.len(), 1);
}

#[test]
fn names_are_taken_as_they_are() {
    let mut store: ParameterStore<i32> = ParameterStore::new();
    store.insert(String::new(), ParameterValue::Scalar(0));
    store.insert(" ".to_string(), ParameterValue::Scalar(1));
    store.insert("Time".to_string(), ParameterValue::Scalar(2));
    store.insert("time".to_string(), ParameterValue::Scalar(3));
    store.insert("größe".to_string(), ParameterValue::Scalar(4));
    assert_eq!(store.len(), 5);
    assert_eq!(store.get(""), Some(ParameterValue::Scalar(0)));
    assert_eq!(store.get(" "), Some(ParameterValue::Scalar(1)));
    assert_eq!(store.get("Time"), Some(ParameterValue::Scalar(2)));
    assert_eq!(store.get("time"), Some(ParameterValue::Scalar(3)));
    assert_eq!(store.get("größe"), Some(ParameterValue::Scalar(4)));
    assert_eq!(store.get("tim"), None);
    assert!(store.contains("größe"));
    assert!(!store.contains("grösse"));
}

#[test]
fn names_lists_each_name_once() {
    let mut store: ParameterStore<u8> = ParameterStore::new();
    for round in 0..3u8 {
        store.insert("a".to_string(), ParameterValue::Scalar(round));
        store.insert("b".to_string(), ParameterValue::Scalar(round));
        store.insert("c".to_string(), ParameterValue::Scalar(round));
    }
    assert_eq!(store.names(), vec!["a".to_string(), "b".to_string(), "c".to_string()]);
    assert_eq!(store.len(), 3);
    for name in store.names() {
        assert_eq!(store.get(&name), Some(ParameterValue::Scalar(2)));
    }
}

#[test]
fn many_names_stay_apart() {
    let mut store: ParameterStore<usize> = ParameterStore::new();
    for i in 0..200usize {
        store.insert(format!("p{}", i), ParameterValue::Scalar(i));
    }
    for i in (0..200usize).step_by(2) {
        store.insert(format!("p{}", i), ParameterValue::Scalar(i + 1000));
    }
    assert_eq!(store.len(), 200);
    for i in 0..200usize {
        let expected = if i % 2 == 0 { i + 1000 } else { i };
        assert_eq!(store.get(&format!("p{}", i)), Some(ParameterValue::Scalar(expected)));
    }
}
