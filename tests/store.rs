use bitwarden_rs::device::Device;
use bitwarden_rs::store::DeviceStore;
use bitwarden_rs::time::Timestamp;

fn device(uuid: &str, owner: &str) -> Device {
    Device::new(uuid.to_string(), owner.to_string(), "phone".to_string(), 1)
}

#[test]
fn save_then_find_returns_equal_record() {
    let mut store = DeviceStore::new();
    let mut d = device("d1", "u1");
    d.refresh_token = "r1".to_string();
    assert!(d.save(&mut store));
    assert_eq!(Device::find_by_uuid("d1", &store), Some(d.clone()));
    assert_eq!(Device::find_by_uuid("d2", &store), None);
}

#[test]
fn save_replaces_record_with_same_id() {
    let mut store = DeviceStore::new();
    let mut d = device("d1", "u1");
    assert!(d.save(&mut store));
    d.name = "renamed".to_string();
    assert!(d.save(&mut store));
    let found = Device::find_by_uuid("d1", &store).unwrap();
    assert_eq!(found.name, "renamed");
    assert_eq!(Device::find_by_user("u1", &store).len(), 1);
}

#[test]
fn save_at_stamps_updated_at() {
    let mut store = DeviceStore::new();
    let mut d = Device::new_at(
        "d".to_string(),
        "u".to_string(),
        "n".to_string(),
        0,
        Timestamp { secs: 10, nanos: 0 },
    );
    assert!(d.save_at(&mut store, Timestamp { secs: 20, nanos: 5 }));
    let found = Device::find_by_uuid("d", &store).unwrap();
    assert_eq!(found.updated_at, Timestamp { secs: 20, nanos: 5 });
    assert_eq!(found.created_at, Timestamp { secs: 10, nanos: 0 });
}

#[test]
fn delete_then_find_is_not_found() {
    let mut store = DeviceStore::new();
    let mut a = device("a", "u");
    let mut b = device("b", "u");
    assert!(a.save(&mut store));
    assert!(b.save(&mut store));
    let a_again = a.clone();
    assert!(a.delete(&mut store));
    assert_eq!(Device::find_by_uuid("a", &store), None);
    assert_eq!(Device::find_by_uuid("b", &store), Some(b.clone()));
    assert!(!a_again.delete(&mut store));
}

#[test]
fn find_by_refresh_token_resolves_device() {
    let mut store = DeviceStore::new();
    let mut a = device("a", "u");
    a.refresh_token = "ta".to_string();
    let mut b = device("b", "v");
    b.refresh_token = "tb".to_string();
    assert!(a.save(&mut store));
    assert!(b.save(&mut store));
    assert_eq!(Device::find_by_refresh_token("tb", &store).unwrap().uuid, "b");
    assert_eq!(Device::find_by_refresh_token("tc", &store), None);
}

#[test]
fn find_by_user_lists_devices_in_order() {
    let mut store = DeviceStore::new();
    for (id, owner) in [("a", "u"), ("b", "v"), ("c", "u")] {
        let mut d = device(id, owner);
        assert!(d.save(&mut store));
    }
    let ids: Vec<String> = Device::find_by_user("u", &store).into_iter().map(|d| d.uuid).collect();
    assert_eq!(ids, vec!["a".to_string(), "c".to_string()]);
    assert!(Device::find_by_user("w", &store).is_empty());
}
