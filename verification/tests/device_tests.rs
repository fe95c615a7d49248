use automower2mqtt::api::{
    Battery, JsonApiData, Metadata, MowerApp, MowerData, Planner, Position, Settings, System,
};
use automower2mqtt::connection::{
    mqtt_step, socket_step, MqttAction, MqttInput, SocketAction, SocketInput, StopReason,
};
use automower2mqtt::device::{mowers_from_api, DeviceAction, Mower, MowerRegistry, RootDevice};
use automower2mqtt::events::{
    BatteryAttributes, BatteryReading, Event, PlannerAttributes, PlannerReport,
};
use automower2mqtt::homie::{DeviceStatus, QoS};
use automower2mqtt::property::{is_retained, mower_layout, same_text, Node, Property};
use automower2mqtt::state::PropertyUpdate;
use automower2mqtt::token::TokenCache;

fn data(name: &str, connected: bool, next_start: u64) -> MowerData {
    MowerData {
        system: System { name: name.to_string() },
        battery: Battery { battery_percent: 80 },
        mower: MowerApp {
            mode: "MAIN_AREA".to_string(),
            activity: "PARKED_IN_CS".to_string(),
            inactive_reason: Some("PLANNING".to_string()),
            state: "RESTRICTED".to_string(),
            work_area_id: None,
            error_code: Some(0),
            error_code_timestamp: Some(0),
            is_error_confirmable: None,
        },
        planner: Planner {
            next_start_timestamp: next_start,
            planner_override: None,
            restricted_reason: "PARK_OVERRIDE".to_string(),
            external_reason: Some(200000),
        },
        metadata: Metadata { connected },
        positions: Some(vec![Position { latitude: None, longitude: None }]),
        settings: Some(Settings { cutting_height: None, headlight: None }),
    }
}

fn root() -> RootDevice {
    RootDevice::new("automower2mqtt".to_string()).unwrap().0
}

#[test]
fn root_device_needs_a_valid_id() {
    assert!(RootDevice::new("Automower".to_string()).is_none());
    assert!(RootDevice::new(String::new()).is_none());
    assert!(RootDevice::new("bad id".to_string()).is_none());
    let (device, last_will) = RootDevice::new("automower2mqtt".to_string()).unwrap();
    assert_eq!(device.id(), "automower2mqtt");
    assert_eq!(last_will.topic, "homie/5/automower2mqtt/$state");
    assert_eq!(last_will.payload, b"lost".to_vec());
    assert!(last_will.retain);
    assert_eq!(last_will.qos, QoS::AtLeastOnce);
}

#[test]
fn child_key_joins_root_and_api_id() {
    let r = root();
    assert_eq!(Mower::id_to_key("abc-123", &r), "automower2mqtt-abc-123");
    assert_eq!(Mower::id_to_key("", &r), "automower2mqtt-");
}

#[test]
fn every_property_is_retained() {
    let layout = mower_layout();
    assert_eq!(layout.len(), 5);
    let all = [
        Property::BatteryLevel,
        Property::PositionLatitudeLongitude,
        Property::MowerMode,
        Property::MowerActivity,
        Property::MowerInactiveReason,
        Property::MowerState,
        Property::MowerErrorCode,
        Property::MowerWorkArea,
        Property::PlannerNextStart,
        Property::PlannerOverride,
        Property::PlannerRestrictedReason,
        Property::PlannerExternalReason,
        Property::SettingsCuttingHeight,
        Property::SettingsHeadlight,
    ];
    for p in all {
        assert!(is_retained(&layout, p.node().id(), p.id()));
    }
    assert_eq!(Node::Settings.id(), "settings");
    assert_eq!(Property::PositionLatitudeLongitude.id(), "latitude-longitude");
    assert!(same_text("mower", "mower"));
    assert!(!same_text("mower", "Mower"));
}

#[test]
fn mower_device_messages() {
    let r = root();
    let mower = Mower::new("m-1".to_string(), &data("Back", true, 0), &r);
    assert_eq!(mower.key(), "automower2mqtt-m-1");
    assert_eq!(mower.api_id(), "m-1");
    assert!(mower.is_retained("battery", "level"));
    let updates = vec![
        PropertyUpdate { property: Property::BatteryLevel, value: "80".to_string() },
        PropertyUpdate { property: Property::MowerInactiveReason, value: String::new() },
    ];
    let messages = mower.messages(&updates);
    assert_eq!(messages.len(), 2);
    assert_eq!(messages[0].topic, "homie/5/automower2mqtt-m-1/battery/level");
    assert_eq!(messages[0].payload, b"80".to_vec());
    assert!(messages[0].retain);
    assert_eq!(messages[0].qos, QoS::ExactlyOnce);
    assert_eq!(messages[1].topic, "homie/5/automower2mqtt-m-1/mower/inactive-reason");
    assert_eq!(messages[1].payload, vec![0u8]);
    let state = mower.state_message(DeviceStatus::Ready);
    assert_eq!(state.topic, "homie/5/automower2mqtt-m-1/$state");
    assert_eq!(state.payload, b"ready".to_vec());
    let description = mower.description_message().unwrap();
    assert_eq!(description.topic, "homie/5/automower2mqtt-m-1/$description");
    let text = String::from_utf8(description.payload).unwrap();
    assert!(text.contains("\"root\":\"automower2mqtt\""));
    assert!(text.contains("\"cutting-height\""));
    assert!(mower.subscriptions().unwrap().is_empty());
}

#[test]
fn publish_plans() {
    let r = root();
    assert_eq!(
        r.publish_plan(),
        vec![
            DeviceAction::PublishState(DeviceStatus::Init),
            DeviceAction::PublishDescription,
            DeviceAction::PublishState(DeviceStatus::Ready),
        ]
    );
    let connected = Mower::new("a".to_string(), &data("A", true, 0), &r);
    assert_eq!(
        connected.publish_plan(),
        vec![
            DeviceAction::PublishState(DeviceStatus::Init),
            DeviceAction::PublishDescription,
            DeviceAction::PublishValues,
            DeviceAction::SubscribeProperties,
            DeviceAction::PublishState(DeviceStatus::Ready),
        ]
    );
    let disconnected = Mower::new("b".to_string(), &data("B", false, 0), &r);
    assert_eq!(
        disconnected.publish_plan(),
        vec![DeviceAction::PublishState(DeviceStatus::Disconnected), DeviceAction::PublishDescription]
    );
}

#[test]
fn root_description_lists_children() {
    let r = root();
    let d = r.description(&vec!["automower2mqtt-a".to_string(), "automower2mqtt-b".to_string()]);
    let m = r.description_message(&d).unwrap();
    assert_eq!(m.topic, "homie/5/automower2mqtt/$description");
    let text = String::from_utf8(m.payload).unwrap();
    assert!(text.contains("Husqvarna Automowers"));
    assert!(text.contains("automower2mqtt-b"));
    assert_eq!(r.state_message(DeviceStatus::Init).payload, b"init".to_vec());
}

#[test]
fn registry_finds_mowers_by_key() {
    let r = root();
    let mut registry = MowerRegistry::new();
    assert_eq!(registry.len(), 0);
    registry.insert(Mower::new("a".to_string(), &data("A", true, 0), &r));
    registry.insert(Mower::new("b".to_string(), &data("B", true, 0), &r));
    assert!(registry.contains_key(&"automower2mqtt-b".to_string()));
    assert!(!registry.contains_key(&"b".to_string()));
    assert_eq!(registry.get(&"automower2mqtt-a".to_string()).unwrap().api_id(), "a");
    assert_eq!(registry.get(&"automower2mqtt-b".to_string()).unwrap().api_id(), "b");
    assert!(registry.get(&"automower2mqtt-c".to_string()).is_none());
    assert_eq!(registry.keys(), vec!["automower2mqtt-a".to_string(), "automower2mqtt-b".to_string()]);
    let unknown = Event::BatteryEventV2 { id: "zzz".to_string(), attributes: BatteryAttributes { battery: None } };
    assert!(registry.record_event(&r, &unknown).is_none());
    let known = Event::BatteryEventV2 {
        id: "b".to_string(),
        attributes: BatteryAttributes { battery: Some(BatteryReading { battery_percent: Some(12) }) },
    };
    let (index, updates) = registry.record_event(&r, &known).unwrap();
    assert_eq!(index, 1);
    assert_eq!(updates[0].value, "12");
    assert_eq!(registry.mower(1).state().battery_percent, 12);
    assert_eq!(registry.mower(0).state().battery_percent, 80);
    let refreshed = registry.refresh_updates(0);
    assert_eq!(refreshed[0].value, "80");
    assert_eq!(refreshed.len(), 9);
}

#[test]
fn registry_keeps_ids_in_ascending_order() {
    let r = root();
    let mut registry = MowerRegistry::new();
    registry.insert(Mower::new("m2".to_string(), &data("Two", true, 0), &r));
    registry.insert(Mower::new("m10".to_string(), &data("Ten", true, 0), &r));
    registry.insert(Mower::new("a".to_string(), &data("A", true, 0), &r));
    registry.insert(Mower::new("m".to_string(), &data("M", true, 0), &r));
    assert_eq!(
        registry.keys(),
        vec![
            "automower2mqtt-a".to_string(),
            "automower2mqtt-m".to_string(),
            "automower2mqtt-m10".to_string(),
            "automower2mqtt-m2".to_string(),
        ]
    );
    assert_eq!(registry.mower(2).api_id(), "m10");
    let children = registry
        .register(vec![Mower::new("b".to_string(), &data("B", true, 0), &r)])
        .unwrap();
    assert_eq!(children, vec!["automower2mqtt-b".to_string()]);
    assert_eq!(registry.mower(1).api_id(), "b");
}

#[test]
fn unknown_mower_may_plan_any_start() {
    let r = root();
    let mut registry = MowerRegistry::new();
    registry.insert(Mower::new("a".to_string(), &data("A", true, 0), &r));
    let far = Event::PlannerEventV2 {
        id: "other".to_string(),
        attributes: PlannerAttributes {
            planner: Some(PlannerReport {
                next_start_timestamp: Some(u64::MAX),
                planner_override: None,
                restricted_reason: None,
                external_reason: None,
            }),
        },
    };
    assert!(registry.record_event(&r, &far).is_none());
}

#[test]
fn registering_mowers_lists_their_ids() {
    let r = root();
    let mut registry = MowerRegistry::new();
    let mowers = vec![
        Mower::new("a".to_string(), &data("A", true, 0), &r),
        Mower::new("b".to_string(), &data("B", false, 0), &r),
    ];
    let children = registry.register(mowers).unwrap();
    assert_eq!(children, vec!["automower2mqtt-a".to_string(), "automower2mqtt-b".to_string()]);
    assert_eq!(registry.len(), 2);
    let again = vec![
        Mower::new("c".to_string(), &data("C", true, 0), &r),
        Mower::new("a".to_string(), &data("A", true, 0), &r),
        Mower::new("d".to_string(), &data("D", true, 0), &r),
    ];
    assert_eq!(registry.register(again), Err("automower2mqtt-a".to_string()));
    assert_eq!(registry.keys().len(), 3);
    assert!(registry.contains_key(&"automower2mqtt-c".to_string()));
    assert!(!registry.contains_key(&"automower2mqtt-d".to_string()));
}

#[test]
fn only_mower_entries_become_devices() {
    let r = root();
    let entries = vec![
        JsonApiData { kind: "mower".to_string(), id: "x".to_string(), attributes: data("X", true, 0) },
        JsonApiData { kind: "charger".to_string(), id: "Y Z".to_string(), attributes: data("Y", true, 0) },
        JsonApiData { kind: "mower".to_string(), id: "z".to_string(), attributes: data("Z", false, 0) },
    ];
    let mowers = mowers_from_api(&r, entries);
    assert_eq!(mowers.len(), 2);
    assert_eq!(mowers[0].key(), "automower2mqtt-x");
    assert_eq!(mowers[1].key(), "automower2mqtt-z");
    assert_eq!(mowers[1].state().homie_status, DeviceStatus::Disconnected);
}

#[test]
fn token_cache_renews_before_expiry() {
    let mut cache = TokenCache::new(1_000);
    assert!(cache.current(1_000).is_none());
    cache.store("tok".to_string(), 1_000, 3_600_000_000_000);
    assert_eq!(cache.current(1_000).as_deref(), Some("tok"));
    assert_eq!(cache.current(1_000 + 3_570_000_000_000 - 1).as_deref(), Some("tok"));
    assert!(cache.current(1_000 + 3_570_000_000_000).is_none());
    cache.store("short".to_string(), 5_000, 10_000_000_000);
    assert!(cache.current(5_000).is_none());
}

#[test]
fn token_with_a_lifetime_past_the_clock_is_kept() {
    let mut cache = TokenCache::new(0);
    cache.store("long".to_string(), 40_000_000_000, u64::MAX);
    assert_eq!(cache.current(u64::MAX - 1).as_deref(), Some("long"));
}

#[test]
fn socket_decisions() {
    match socket_step(SocketInput::Ping(vec![1, 2, 3])) {
        SocketAction::SendPong(p) => assert_eq!(p, vec![1, 2, 3]),
        _ => panic!("expected a pong"),
    }
    match socket_step(SocketInput::PingDue) {
        SocketAction::SendPing(p) => {
            assert_eq!(p, b"would be very nice of you to pong, thank you very much".to_vec())
        }
        _ => panic!("expected a ping"),
    }
    assert!(matches!(socket_step(SocketInput::Ended), SocketAction::Reconnect));
    assert!(matches!(socket_step(SocketInput::Close), SocketAction::Reconnect));
    assert!(matches!(socket_step(SocketInput::ProtocolError), SocketAction::Reconnect));
    assert!(matches!(socket_step(SocketInput::Undecodable), SocketAction::Skip));
    assert!(matches!(socket_step(SocketInput::Pong), SocketAction::Skip));
    assert!(matches!(socket_step(SocketInput::Failure), SocketAction::Fail));
    let ev = Event::CalendarEventV2 { id: "q".to_string() };
    match socket_step(SocketInput::Decoded(ev)) {
        SocketAction::Dispatch(e) => assert_eq!(e.id(), "q"),
        _ => panic!("expected a dispatch"),
    }
}

#[test]
fn mqtt_decisions() {
    assert_eq!(mqtt_step(MqttInput::ConnAck), MqttAction::StartPublishing);
    assert_eq!(mqtt_step(MqttInput::Other), MqttAction::Continue);
    assert_eq!(mqtt_step(MqttInput::OutgoingDisconnect), MqttAction::Stop(StopReason::Disconnected));
    assert_eq!(mqtt_step(MqttInput::MonitorEnded), MqttAction::Stop(StopReason::MonitorEnded));
    assert_eq!(mqtt_step(MqttInput::MonitorLost), MqttAction::Stop(StopReason::MonitorLost));
}
