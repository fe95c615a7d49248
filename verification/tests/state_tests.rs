use automower2mqtt::api::{
    Battery, Headlight, Metadata, MowerApp, MowerData, Planner, PlannerOverride, Position, Settings,
    System,
};
use automower2mqtt::decimal::{signed_text, unsigned_text};
use automower2mqtt::events::{
    BatteryAttributes, BatteryReading, CuttingHeight, CuttingHeightAttributes, Event,
    HeadlightAttributes, MowerAttributes, MowerReport, PlannerAttributes, PlannerReport,
    PositionAttributes,
};
use automower2mqtt::homie::DeviceStatus;
use automower2mqtt::property::Property;
use automower2mqtt::state::{MowerState, PropertyUpdate};

fn sample_data(connected: bool) -> MowerData {
    MowerData {
        system: System { name: "Front lawn".to_string() },
        battery: Battery { battery_percent: 57 },
        mower: MowerApp {
            mode: "MAIN_AREA".to_string(),
            activity: "MOWING".to_string(),
            inactive_reason: None,
            state: "IN_OPERATION".to_string(),
            work_area_id: Some(-3),
            error_code: None,
            error_code_timestamp: None,
            is_error_confirmable: Some(false),
        },
        planner: Planner {
            next_start_timestamp: 1_700_000_000_000,
            planner_override: Some(PlannerOverride { action: "NOT_ACTIVE".to_string() }),
            restricted_reason: "WEEK_SCHEDULE".to_string(),
            external_reason: None,
        },
        metadata: Metadata { connected },
        positions: Some(vec![
            Position { latitude: Some("57.7".to_string()), longitude: Some("14.1".to_string()) },
            Position { latitude: Some("57.70974".to_string()), longitude: Some("14.14113".to_string()) },
        ]),
        settings: Some(Settings {
            cutting_height: Some(4),
            headlight: Some(Headlight { mode: "EVENING_ONLY".to_string() }),
        }),
    }
}

fn pairs(updates: &[PropertyUpdate]) -> Vec<(Property, String)> {
    updates.iter().map(|u| (u.property, u.value.clone())).collect()
}

#[test]
fn decimal_texts() {
    assert_eq!(unsigned_text(0), "0");
    assert_eq!(unsigned_text(57), "57");
    assert_eq!(unsigned_text(u64::MAX), "18446744073709551615");
    assert_eq!(signed_text(-5), "-5");
    assert_eq!(signed_text(0), "0");
    assert_eq!(signed_text(i64::MIN), "-9223372036854775808");
    assert_eq!(signed_text(299_999), "299999");
}

#[test]
fn initial_state_from_api() {
    let s = MowerState::from_data(&sample_data(true));
    assert_eq!(s.homie_status, DeviceStatus::Init);
    assert_eq!(s.battery_percent, 57);
    assert_eq!(s.latitude.as_deref(), Some("57.70974"));
    assert_eq!(s.longitude.as_deref(), Some("14.14113"));
    assert_eq!(s.cutting_height, Some(4));
    assert_eq!(s.headlight_mode.as_deref(), Some("EVENING_ONLY"));
    assert_eq!(s.planner_override.as_deref(), Some("NOT_ACTIVE"));
    let d = MowerState::from_data(&sample_data(false));
    assert_eq!(d.homie_status, DeviceStatus::Disconnected);
}

#[test]
fn initial_state_without_positions_or_settings() {
    let mut data = sample_data(true);
    data.positions = Some(vec![]);
    data.settings = None;
    let s = MowerState::from_data(&data);
    assert_eq!(s.latitude, None);
    assert_eq!(s.longitude, None);
    assert_eq!(s.cutting_height, None);
    assert_eq!(s.headlight_mode, None);
}

#[test]
fn battery_event_without_reading_republishes_stored_level() {
    let mut s = MowerState::from_data(&sample_data(true));
    let ev = Event::BatteryEventV2 { id: "m".to_string(), attributes: BatteryAttributes { battery: None } };
    let u = s.apply_event(&ev, "");
    assert_eq!(pairs(&u), vec![(Property::BatteryLevel, "57".to_string())]);
    let ev = Event::BatteryEventV2 {
        id: "m".to_string(),
        attributes: BatteryAttributes { battery: Some(BatteryReading { battery_percent: None }) },
    };
    let u = s.apply_event(&ev, "");
    assert_eq!(pairs(&u), vec![(Property::BatteryLevel, "57".to_string())]);
}

#[test]
fn battery_event_with_reading_updates_level() {
    let mut s = MowerState::from_data(&sample_data(true));
    let ev = Event::BatteryEventV2 {
        id: "m".to_string(),
        attributes: BatteryAttributes { battery: Some(BatteryReading { battery_percent: Some(100) }) },
    };
    let u = s.apply_event(&ev, "");
    assert_eq!(pairs(&u), vec![(Property::BatteryLevel, "100".to_string())]);
    assert_eq!(s.battery_percent, 100);
}

#[test]
fn cutting_height_event() {
    let mut data = sample_data(true);
    data.settings = None;
    let mut s = MowerState::from_data(&data);
    let empty = Event::CuttingHeightEventV2 {
        id: "m".to_string(),
        attributes: CuttingHeightAttributes { cutting_height: None },
    };
    assert!(s.apply_event(&empty, "").is_empty());
    let ev = Event::CuttingHeightEventV2 {
        id: "m".to_string(),
        attributes: CuttingHeightAttributes { cutting_height: Some(CuttingHeight { height: Some(7) }) },
    };
    assert_eq!(pairs(&s.apply_event(&ev, "")), vec![(Property::SettingsCuttingHeight, "7".to_string())]);
    assert_eq!(pairs(&s.apply_event(&empty, "")), vec![(Property::SettingsCuttingHeight, "7".to_string())]);
}

#[test]
fn headlight_event() {
    let mut s = MowerState::from_data(&sample_data(true));
    let ev = Event::HeadlightsEventV2 {
        id: "m".to_string(),
        attributes: HeadlightAttributes { headlight: Some(Headlight { mode: "ALWAYS_ON".to_string() }) },
    };
    assert_eq!(pairs(&s.apply_event(&ev, "")), vec![(Property::SettingsHeadlight, "ALWAYS_ON".to_string())]);
    assert_eq!(s.headlight_mode.as_deref(), Some("ALWAYS_ON"));
}

#[test]
fn position_event_needs_both_coordinates() {
    let mut data = sample_data(true);
    data.positions = None;
    let mut s = MowerState::from_data(&data);
    let only_lat = Event::PositionEventV2 {
        id: "m".to_string(),
        attributes: PositionAttributes {
            position: Some(Position { latitude: Some("1.5".to_string()), longitude: None }),
        },
    };
    assert!(s.apply_event(&only_lat, "").is_empty());
    let only_lon = Event::PositionEventV2 {
        id: "m".to_string(),
        attributes: PositionAttributes {
            position: Some(Position { latitude: None, longitude: Some("-2.25".to_string()) }),
        },
    };
    assert_eq!(
        pairs(&s.apply_event(&only_lon, "")),
        vec![(Property::PositionLatitudeLongitude, "1.5,-2.25".to_string())]
    );
}

#[test]
fn mower_event_publishes_what_it_carries_in_order() {
    let mut s = MowerState::from_data(&sample_data(true));
    let ev = Event::MowerEventV2 {
        id: "m".to_string(),
        attributes: MowerAttributes {
            mower: Some(MowerReport {
                mode: Some("HOME".to_string()),
                activity: None,
                inactive_reason: Some("PLANNING".to_string()),
                state: Some("RESTRICTED".to_string()),
                work_area_id: Some(123456),
                error_code: Some(724),
                error_code_timestamp: None,
                is_error_confirmable: None,
            }),
        },
    };
    assert_eq!(
        pairs(&s.apply_event(&ev, "")),
        vec![
            (Property::MowerMode, "HOME".to_string()),
            (Property::MowerInactiveReason, "PLANNING".to_string()),
            (Property::MowerState, "RESTRICTED".to_string()),
            (Property::MowerErrorCode, "724".to_string()),
            (Property::MowerWorkArea, "123456".to_string()),
        ]
    );
    // mower events are not remembered
    assert_eq!(s.mower_mode, "MAIN_AREA");
    let none = Event::MowerEventV2 { id: "m".to_string(), attributes: MowerAttributes { mower: None } };
    assert!(s.apply_event(&none, "").is_empty());
}

#[test]
fn planner_event_displays_next_start() {
    let mut s = MowerState::from_data(&sample_data(true));
    let ev = Event::PlannerEventV2 {
        id: "m".to_string(),
        attributes: PlannerAttributes {
            planner: Some(PlannerReport {
                next_start_timestamp: Some(1_700_000_000_000),
                planner_override: Some(PlannerOverride { action: "FORCE_MOW".to_string() }),
                restricted_reason: None,
                external_reason: Some(1001),
            }),
        },
    };
    assert_eq!(
        pairs(&s.apply_event(&ev, "unused")),
        vec![
            (Property::PlannerNextStart, "2023-11-14T22:13:20".to_string()),
            (Property::PlannerOverride, "FORCE_MOW".to_string()),
            (Property::PlannerExternalReason, "1001".to_string()),
        ]
    );
}

#[test]
fn planner_event_without_start_publishes_now() {
    let mut s = MowerState::from_data(&sample_data(true));
    let ev = Event::PlannerEventV2 {
        id: "m".to_string(),
        attributes: PlannerAttributes {
            planner: Some(PlannerReport {
                next_start_timestamp: Some(0),
                planner_override: None,
                restricted_reason: Some("NOT_APPLICABLE".to_string()),
                external_reason: None,
            }),
        },
    };
    assert_eq!(
        pairs(&s.apply_event(&ev, "2025-01-01T00:00:00Z")),
        vec![
            (Property::PlannerNextStart, "2025-01-01T00:00:00Z".to_string()),
            (Property::PlannerRestrictedReason, "NOT_APPLICABLE".to_string()),
        ]
    );
    let u = s.record_event(&ev);
    assert_eq!(u.len(), 2);
    assert!(u[0].value.ends_with('Z'));
}

#[test]
fn planner_event_at_the_last_datetime() {
    let mut s = MowerState::from_data(&sample_data(true));
    let ev = Event::PlannerEventV2 {
        id: "m".to_string(),
        attributes: PlannerAttributes {
            planner: Some(PlannerReport {
                next_start_timestamp: Some(253_402_300_799_999),
                planner_override: None,
                restricted_reason: None,
                external_reason: None,
            }),
        },
    };
    assert_eq!(
        pairs(&s.record_event(&ev)),
        vec![(Property::PlannerNextStart, "9999-12-31T23:59:59.999".to_string())]
    );
}

#[test]
fn calendar_and_message_events_publish_nothing() {
    let mut s = MowerState::from_data(&sample_data(true));
    assert!(s.apply_event(&Event::CalendarEventV2 { id: "m".to_string() }, "").is_empty());
    assert!(s.apply_event(&Event::MessageEventV2 { id: "m".to_string() }, "").is_empty());
}

#[test]
fn redelivered_event_changes_nothing_more() {
    let mut s = MowerState::from_data(&sample_data(true));
    let ev = Event::PositionEventV2 {
        id: "m".to_string(),
        attributes: PositionAttributes {
            position: Some(Position { latitude: Some("1".to_string()), longitude: Some("2".to_string()) }),
        },
    };
    let first = pairs(&s.apply_event(&ev, ""));
    let lat = s.latitude.clone();
    let second = pairs(&s.apply_event(&ev, ""));
    assert_eq!(first, second);
    assert_eq!(s.latitude, lat);
}

#[test]
fn refresh_republishes_every_value_and_keeps_state() {
    let mut s = MowerState::from_data(&sample_data(true));
    let events = s.refresh_events(&"m".to_string());
    assert_eq!(events.len(), 6);
    let updates = s.refresh(&"m".to_string());
    assert_eq!(
        pairs(&updates),
        vec![
            (Property::BatteryLevel, "57".to_string()),
            (Property::PositionLatitudeLongitude, "57.70974,14.14113".to_string()),
            (Property::MowerMode, "MAIN_AREA".to_string()),
            (Property::MowerActivity, "MOWING".to_string()),
            (Property::MowerInactiveReason, "NONE".to_string()),
            (Property::MowerState, "IN_OPERATION".to_string()),
            (Property::MowerWorkArea, "-3".to_string()),
            (Property::PlannerNextStart, "2023-11-14T22:13:20".to_string()),
            (Property::PlannerOverride, "NOT_ACTIVE".to_string()),
            (Property::PlannerRestrictedReason, "WEEK_SCHEDULE".to_string()),
            (Property::SettingsHeadlight, "EVENING_ONLY".to_string()),
            (Property::SettingsCuttingHeight, "4".to_string()),
        ]
    );
    assert_eq!(s.battery_percent, 57);
    assert_eq!(s.latitude.as_deref(), Some("57.70974"));
}
