use bluetooth_registry::{
    BluetoothDeviceInfo, BluetoothEvent, BluetoothMajor, BluetoothManager, BluetoothMinor,
    BluetoothState, DeviceRegistrations, IdMap, PlatformError, RawDevice, SessionRegistrations,
};

fn raw(id: &str, name: &str, handle: u32) -> RawDevice<u32> {
    RawDevice {
        id: id.to_string(),
        name: name.to_string(),
        address: 0xA0B1_C2D3_E4F5,
        major_code: 5,
        minor_code: 0b0001_0000,
        status_code: 1,
        handle,
    }
}

fn regs(c: i64, n: i64) -> DeviceRegistrations {
    DeviceRegistrations { connection_status: Some(c), name: Some(n) }
}

fn session() -> SessionRegistrations {
    SessionRegistrations {
        added: Some(1),
        updated: Some(2),
        removed: None,
        enumeration_completed: Some(4),
    }
}

fn watching() -> BluetoothManager<u32> {
    let mut m = BluetoothManager::new();
    assert!(m.register_for_devices(Ok(session())).is_ok());
    m
}

#[test]
fn record_from_report() {
    let info = BluetoothDeviceInfo::from_raw(raw("dev", "Mouse", 7));
    assert_eq!(info.id, "dev");
    assert_eq!(info.name, "Mouse");
    assert_eq!(info.address, 0xA0B1_C2D3_E4F5);
    assert_eq!(info.major_class, BluetoothMajor::Peripheral);
    assert_eq!(info.minor_main_class, BluetoothMinor::PeripheralPointer);
    assert_eq!(info.minor_sub_class, BluetoothMinor::Uncategorized);
    assert_eq!(info.status, BluetoothState::Connected);
    assert_eq!(info.inner, 7);
}

#[test]
fn watching_is_idempotent() {
    let mut m: BluetoothManager<u32> = BluetoothManager::new();
    assert!(!m.is_watching());
    assert_eq!(m.register_for_devices(Err(PlatformError { code: -5 })), Err(PlatformError { code: -5 }));
    assert!(!m.is_watching());
    assert_eq!(m.session(), None);
    assert_eq!(m.register_for_devices(Ok(session())), Ok(()));
    assert!(m.is_watching());
    assert_eq!(m.session(), Some(session()));
    let other = SessionRegistrations { added: None, updated: None, removed: None, enumeration_completed: None };
    assert_eq!(m.register_for_devices(Ok(other)), Ok(()));
    assert_eq!(m.register_for_devices(Err(PlatformError { code: 1 })), Ok(()));
    assert_eq!(m.session(), Some(session()));
}

#[test]
fn add_twice_keeps_latest() {
    let mut m = watching();
    let first = m.add_device("A".to_string(), raw("A", "Old", 1), regs(10, 11));
    assert!(first.previous.is_none());
    assert!(first.stale.is_none());
    let second = m.add_device("A".to_string(), raw("A", "New", 2), regs(20, 21));
    assert_eq!(second.previous.map(|d| d.name), Some("Old".to_string()));
    assert_eq!(second.stale, Some(regs(10, 11)));
    assert_eq!(m.known_items().len(), 1);
    let rec = m.known_items().get(&"A".to_string()).unwrap();
    assert_eq!(rec.name, "New");
    assert_eq!(rec.inner, 2);
    assert_eq!(m.registrations().get(&"A".to_string()), Some(&regs(20, 21)));
    assert_eq!(m.registrations().len(), 1);
}

#[test]
fn removal_clears_both_maps() {
    let mut m = watching();
    m.add_device("A".to_string(), raw("A", "Mouse", 1), regs(10, 11));
    m.add_device("B".to_string(), raw("B", "Keys", 2), regs(20, 21));
    let out = m.remove_device("A".to_string());
    assert_eq!(out.device.map(|d| d.inner), Some(1));
    assert_eq!(out.registrations, Some(regs(10, 11)));
    assert!(!m.known_items().contains_key(&"A".to_string()));
    assert!(!m.registrations().contains_key(&"A".to_string()));
    assert!(m.known_items().contains_key(&"B".to_string()));
    assert_eq!(m.registrations().get(&"B".to_string()), Some(&regs(20, 21)));
}

#[test]
fn removing_unknown_id() {
    let mut m = watching();
    let out = m.remove_device("missing".to_string());
    assert!(out.device.is_none());
    assert!(out.registrations.is_none());
    assert_eq!(out.event, None);
    m.set_enumeration_completed();
    let out = m.remove_device("missing".to_string());
    assert_eq!(out.event, Some(BluetoothEvent::BluetoothDevicesChanged()));
}

#[test]
fn events_are_gated_on_enumeration() {
    let mut m = watching();
    let mut events = 0;
    if m.add_device("A".to_string(), raw("A", "a", 1), regs(1, 2)).event.is_some() {
        events += 1;
    }
    if m.update_device(raw("A", "a2", 3)).is_some() {
        events += 1;
    }
    if m.remove_device("A".to_string()).event.is_some() {
        events += 1;
    }
    assert_eq!(events, 0);
    assert!(!m.enumeration_completed());
    assert_eq!(m.set_enumeration_completed(), BluetoothEvent::BluetoothDevicesChanged());
    assert!(m.enumeration_completed());
    assert_eq!(m.set_enumeration_completed(), BluetoothEvent::BluetoothDevicesChanged());
    assert!(m.enumeration_completed());
    assert!(m.add_device("B".to_string(), raw("B", "b", 1), regs(1, 2)).event.is_some());
    assert!(m.update_device(raw("B", "b2", 3)).is_some());
    assert!(m.remove_device("B".to_string()).event.is_some());
}

#[test]
fn update_keeps_tokens() {
    let mut m = watching();
    m.add_device("A".to_string(), raw("A", "Mouse", 1), regs(10, 11));
    let mut changed = raw("A", "Renamed", 5);
    changed.status_code = 0;
    m.update_device(changed);
    let rec = m.known_items().get(&"A".to_string()).unwrap();
    assert_eq!(rec.name, "Renamed");
    assert_eq!(rec.status, BluetoothState::Disconnected);
    assert_eq!(m.registrations().get(&"A".to_string()), Some(&regs(10, 11)));
    // an update for an id never added stores a record without tokens
    m.update_device(raw("Z", "Stray", 9));
    assert!(m.known_items().contains_key(&"Z".to_string()));
    assert!(!m.registrations().contains_key(&"Z".to_string()));
}

#[test]
fn discovery_is_a_no_op() {
    let mut m = watching();
    m.add_device("A".to_string(), raw("A", "Mouse", 1), regs(10, 11));
    assert_eq!(m.discover(), Ok(()));
    assert_eq!(m.stop_discovery(), Ok(()));
    assert_eq!(m.known_items().len(), 1);
}

#[test]
fn scenario_watch_enumerate_add_remove() {
    let mut m = watching();
    let mut events = 0;
    if m.add_device("A".to_string(), raw("A", "Mouse", 1), regs(1, 2)).event.is_some() {
        events += 1;
    }
    assert_eq!(m.known_items().get(&"A".to_string()).unwrap().name, "Mouse");
    assert_eq!(events, 0);
    m.set_enumeration_completed();
    events += 1;
    assert_eq!(events, 1);
    assert!(m.enumeration_completed());
    if m.add_device("B".to_string(), raw("B", "Keyboard", 2), regs(3, 4)).event.is_some() {
        events += 1;
    }
    assert_eq!(events, 2);
    assert_eq!(m.known_items().len(), 2);
    if m.remove_device("A".to_string()).event.is_some() {
        events += 1;
    }
    assert_eq!(events, 3);
    assert_eq!(m.known_items().len(), 1);
    assert!(m.known_items().contains_key(&"B".to_string()));
    assert!(!m.registrations().contains_key(&"A".to_string()));
}

#[test]
fn interleaved_operations_keep_last_add() {
    // operations of several callback threads, in the order the lock admitted them
    let mut m = watching();
    m.set_enumeration_completed();
    let ids = ["d0", "d1", "d2", "d3", "d4", "d5"];
    let mut last_added = [false; 6];
    for round in 0..20u32 {
        for (k, id) in ids.iter().enumerate() {
            if (round as usize + k) % 3 == 0 {
                m.remove_device(id.to_string());
                last_added[k] = false;
            } else {
                m.add_device(id.to_string(), raw(id, &format!("{}-{}", id, round), round), regs(1, 2));
                last_added[k] = true;
            }
        }
    }
    let expected = last_added.iter().filter(|b| **b).count();
    assert_eq!(m.known_items().len(), expected);
    assert_eq!(m.registrations().len(), expected);
    for (k, id) in ids.iter().enumerate() {
        let key = id.to_string();
        assert_eq!(m.known_items().contains_key(&key), last_added[k]);
        if let Some(rec) = m.known_items().get(&key) {
            assert_eq!(rec.id, *id);
            assert_eq!(rec.name, format!("{}-{}", id, rec.inner));
        }
    }
}

#[test]
fn id_map_basics() {
    let mut map: IdMap<u8> = IdMap::new();
    assert_eq!(map.len(), 0);
    assert_eq!(map.insert("x".to_string(), 1), None);
    assert_eq!(map.insert("y".to_string(), 2), None);
    assert_eq!(map.insert("x".to_string(), 3), Some(1));
    assert_eq!(map.len(), 2);
    assert_eq!(map.get(&"x".to_string()), Some(&3));
    let mut seen = Vec::new();
    for i in 0..map.len() {
        let (k, v) = map.entry_at(i);
        seen.push((k.clone(), *v));
    }
    seen.sort();
    assert_eq!(seen, vec![("x".to_string(), 3), ("y".to_string(), 2)]);
    assert_eq!(map.remove(&"x".to_string()), Some(3));
    assert_eq!(map.remove(&"x".to_string()), None);
    assert_eq!(map.len(), 1);
    assert_eq!(map.get(&"x".to_string()), None);
}

#[test]
fn shutdown_hands_back_everything() {
    let mut m = watching();
    m.add_device("A".to_string(), raw("A", "Mouse", 1), regs(10, 11));
    m.add_device("B".to_string(), raw("B", "Keys", 2), regs(20, 21));
    m.update_device(raw("C", "Stray", 3));
    m.set_enumeration_completed();
    let out = m.shutdown();
    assert_eq!(out.session, Some(session()));
    let mut got: Vec<(String, u32, Option<DeviceRegistrations>)> = out
        .devices
        .into_iter()
        .map(|d| (d.id, d.device.inner, d.registrations))
        .collect();
    got.sort_by(|a, b| a.0.cmp(&b.0));
    assert_eq!(
        got,
        vec![
            ("A".to_string(), 1, Some(regs(10, 11))),
            ("B".to_string(), 2, Some(regs(20, 21))),
            ("C".to_string(), 3, None),
        ]
    );
    assert_eq!(m.known_items().len(), 0);
    assert_eq!(m.registrations().len(), 0);
    assert!(!m.is_watching());
    assert!(m.enumeration_completed());
}
