//! What the bridge remembers of each mower, how an event changes it, and
//! which property values an event publishes.
use crate::api::{MowerData, PlannerOverride, Position};
use crate::clock::{current_time_text, is_utc_timestamp_text, mower_datetime, mower_datetime_text, MAX_MOWER_MILLIS};
use crate::decimal::{decimal, signed_decimal, signed_text, unsigned_text};
use crate::events::{
    BatteryAttributes, CuttingHeightAttributes, Event, HeadlightAttributes, MowerAttributes,
    MowerReport, PlannerAttributes, PlannerReport, PositionAttributes,
};
use crate::homie::DeviceStatus;
use crate::property::Property;
use vstd::prelude::*;

verus! {

broadcast use vstd::string::group_string_axioms;

/// The text of an optional string.
pub open spec fn opt_text(o: Option<String>) -> Option<Seq<char>> {
    match o {
        Some(s) => Some(s@),
        None => None,
    }
}

/// A new value for a property of the mower device.
pub struct PropertyUpdate {
    pub property: Property,
    pub value: String,
}

/// The abstract form of a list of updates: each property with its value.
pub open spec fn updates_view(updates: Seq<PropertyUpdate>) -> Seq<(Property, Seq<char>)> {
    updates.map_values(|u: PropertyUpdate| (u.property, u.value@))
}

/// What the bridge remembers of a mower. Each coordinate stands as the
/// decimal text with which it is displayed.
pub struct MowerState {
    pub homie_status: DeviceStatus,
    pub battery_percent: u8,
    pub latitude: Option<String>,
    pub longitude: Option<String>,
    pub mower_mode: String,
    pub mower_activity: String,
    pub mower_inactive_reason: Option<String>,
    pub mower_state: String,
    pub work_area_id: Option<i64>,
    pub error_code: Option<u16>,
    pub error_code_timestamp: Option<u64>,
    pub is_error_confirmable: Option<bool>,
    pub planner_external_reason: Option<i32>,
    pub planner_restricted_reason: String,
    pub planner_next_start: u64,
    pub planner_override: Option<String>,
    pub cutting_height: Option<u8>,
    pub headlight_mode: Option<String>,
}

/// The abstract form of a mower's state.
pub struct MowerStateView {
    pub homie_status: DeviceStatus,
    pub battery_percent: u8,
    pub latitude: Option<Seq<char>>,
    pub longitude: Option<Seq<char>>,
    pub mower_mode: Seq<char>,
    pub mower_activity: Seq<char>,
    pub mower_inactive_reason: Option<Seq<char>>,
    pub mower_state: Seq<char>,
    pub work_area_id: Option<i64>,
    pub error_code: Option<u16>,
    pub error_code_timestamp: Option<u64>,
    pub is_error_confirmable: Option<bool>,
    pub planner_external_reason: Option<i32>,
    pub planner_restricted_reason: Seq<char>,
    pub planner_next_start: u64,
    pub planner_override: Option<Seq<char>>,
    pub cutting_height: Option<u8>,
    pub headlight_mode: Option<Seq<char>>,
}

impl View for MowerState {
    type V = MowerStateView;

    open spec fn view(&self) -> MowerStateView {
        MowerStateView {
            homie_status: self.homie_status,
            battery_percent: self.battery_percent,
            latitude: opt_text(self.latitude),
            longitude: opt_text(self.longitude),
            mower_mode: self.mower_mode@,
            mower_activity: self.mower_activity@,
            mower_inactive_reason: opt_text(self.mower_inactive_reason),
            mower_state: self.mower_state@,
            work_area_id: self.work_area_id,
            error_code: self.error_code,
            error_code_timestamp: self.error_code_timestamp,
            is_error_confirmable: self.is_error_confirmable,
            planner_external_reason: self.planner_external_reason,
            planner_restricted_reason: self.planner_restricted_reason@,
            planner_next_start: self.planner_next_start,
            planner_override: opt_text(self.planner_override),
            cutting_height: self.cutting_height,
            headlight_mode: opt_text(self.headlight_mode),
        }
    }
}

/// The last of the reported positions, if any.
pub open spec fn last_position(data: &MowerData) -> Option<Position> {
    match data.positions {
        Some(ps) => if ps@.len() > 0 {
            Some(ps@.last())
        } else {
            None
        },
        None => None,
    }
}

/// The state a mower starts in: `init` when it is connected and
/// `disconnected` otherwise, the coordinates of its last position, and the
/// rest as the API reports it.
pub open spec fn initial_state(data: &MowerData) -> MowerStateView {
    MowerStateView {
        homie_status: if data.metadata.connected {
            DeviceStatus::Init
        } else {
            DeviceStatus::Disconnected
        },
        battery_percent: data.battery.battery_percent,
        latitude: match last_position(data) {
            Some(p) => opt_text(p.latitude),
            None => None,
        },
        longitude: match last_position(data) {
            Some(p) => opt_text(p.longitude),
            None => None,
        },
        mower_mode: data.mower.mode@,
        mower_activity: data.mower.activity@,
        mower_inactive_reason: opt_text(data.mower.inactive_reason),
        mower_state: data.mower.state@,
        work_area_id: data.mower.work_area_id,
        error_code: data.mower.error_code,
        error_code_timestamp: data.mower.error_code_timestamp,
        is_error_confirmable: data.mower.is_error_confirmable,
        planner_external_reason: data.planner.external_reason,
        planner_restricted_reason: data.planner.restricted_reason@,
        planner_next_start: data.planner.next_start_timestamp,
        planner_override: match data.planner.planner_override {
            Some(o) => Some(o.action@),
            None => None,
        },
        cutting_height: match data.settings {
            Some(s) => s.cutting_height,
            None => None,
        },
        headlight_mode: match data.settings {
            Some(s) => match s.headlight {
                Some(h) => Some(h.mode@),
                None => None,
            },
            None => None,
        },
    }
}

/// A reported value where there is one, the remembered value otherwise.
pub open spec fn or_else<T>(reported: Option<T>, remembered: Option<T>) -> Option<T> {
    match reported {
        Some(v) => Some(v),
        None => remembered,
    }
}

/// The state after an event: battery, cutting height, headlight and position
/// events replace the remembered values with those they carry and keep the
/// rest; no other event changes the state.
#[verifier::opaque]
pub open spec fn event_state(s: MowerStateView, event: &Event) -> MowerStateView {
    match event {
        Event::BatteryEventV2 { attributes, .. } => MowerStateView {
            battery_percent: match attributes.battery {
                Some(b) => match b.battery_percent {
                    Some(p) => p,
                    None => s.battery_percent,
                },
                None => s.battery_percent,
            },
            ..s
        },
        Event::CuttingHeightEventV2 { attributes, .. } => MowerStateView {
            cutting_height: or_else(
                match attributes.cutting_height {
                    Some(c) => c.height,
                    None => None,
                },
                s.cutting_height,
            ),
            ..s
        },
        Event::HeadlightsEventV2 { attributes, .. } => MowerStateView {
            headlight_mode: or_else(
                match attributes.headlight {
                    Some(h) => Some(h.mode@),
                    None => None,
                },
                s.headlight_mode,
            ),
            ..s
        },
        Event::PositionEventV2 { attributes, .. } => MowerStateView {
            latitude: or_else(
                match attributes.position {
                    Some(p) => opt_text(p.latitude),
                    None => None,
                },
                s.latitude,
            ),
            longitude: or_else(
                match attributes.position {
                    Some(p) => opt_text(p.longitude),
                    None => None,
                },
                s.longitude,
            ),
            ..s
        },
        _ => s,
    }
}

/// An update of `property` to the value, when there is one.
pub open spec fn update_if(property: Property, value: Option<Seq<char>>) -> Seq<(Property, Seq<char>)> {
    match value {
        Some(v) => seq![(property, v)],
        None => seq![],
    }
}

/// The decimal text of an optional unsigned number.
pub open spec fn opt_decimal(n: Option<u64>) -> Option<Seq<char>> {
    match n {
        Some(v) => Some(decimal(v as nat)),
        None => None,
    }
}

/// The decimal text of an optional signed number.
pub open spec fn opt_signed_decimal(n: Option<i64>) -> Option<Seq<char>> {
    match n {
        Some(v) => Some(signed_decimal(v as int)),
        None => None,
    }
}

/// The text published for the next planned start: the current time, given
/// as `now`, when no start is planned, and the planned datetime otherwise.
pub open spec fn next_start_text(timestamp: u64, now: Seq<char>) -> Seq<char> {
    if timestamp == 0 {
        now
    } else {
        mower_datetime_text(timestamp as nat)
    }
}

/// The updates of the mower node that a mower event publishes, in order:
/// mode, activity, inactive reason, state, error code and work area, each one
/// the event carries.
pub open spec fn mower_report_updates(m: MowerReport) -> Seq<(Property, Seq<char>)> {
    update_if(Property::MowerMode, opt_text(m.mode)) + update_if(
        Property::MowerActivity,
        opt_text(m.activity),
    ) + update_if(Property::MowerInactiveReason, opt_text(m.inactive_reason)) + update_if(
        Property::MowerState,
        opt_text(m.state),
    ) + update_if(
        Property::MowerErrorCode,
        match m.error_code {
            Some(c) => Some(decimal(c as nat)),
            None => None,
        },
    ) + update_if(
        Property::MowerWorkArea,
        match m.work_area_id {
            Some(w) => Some(signed_decimal(w as int)),
            None => None,
        },
    )
}

/// The updates of the planner node that a planner event publishes, in order:
/// next start, override action, restricted reason and external reason, each
/// one the event carries.
pub open spec fn planner_report_updates(p: PlannerReport, now: Seq<char>) -> Seq<(Property, Seq<char>)> {
    update_if(
        Property::PlannerNextStart,
        match p.next_start_timestamp {
            Some(t) => Some(next_start_text(t, now)),
            None => None,
        },
    ) + update_if(
        Property::PlannerOverride,
        match p.planner_override {
            Some(o) => Some(o.action@),
            None => None,
        },
    ) + update_if(Property::PlannerRestrictedReason, opt_text(p.restricted_reason)) + update_if(
        Property::PlannerExternalReason,
        match p.external_reason {
            Some(r) => Some(signed_decimal(r as int)),
            None => None,
        },
    )
}

/// The property values an event publishes, given the state before it and the
/// current time `now`: the battery level after a battery event; the cutting
/// height or headlight mode after their events, when one is known; the
/// latitude and longitude joined by a comma after a position event, when
/// both are known; what a mower or planner event carries; nothing for
/// calendar and message events.
#[verifier::opaque]
pub open spec fn event_updates(s: MowerStateView, event: &Event, now: Seq<char>) -> Seq<(Property, Seq<char>)> {
    let t = event_state(s, event);
    match event {
        Event::BatteryEventV2 { .. } => seq![(Property::BatteryLevel, decimal(t.battery_percent as nat))],
        Event::CuttingHeightEventV2 { .. } => update_if(
            Property::SettingsCuttingHeight,
            match t.cutting_height {
                Some(h) => Some(decimal(h as nat)),
                None => None,
            },
        ),
        Event::HeadlightsEventV2 { .. } => update_if(Property::SettingsHeadlight, t.headlight_mode),
        Event::MowerEventV2 { attributes, .. } => match attributes.mower {
            Some(m) => mower_report_updates(m),
            None => seq![],
        },
        Event::PlannerEventV2 { attributes, .. } => match attributes.planner {
            Some(p) => planner_report_updates(p, now),
            None => seq![],
        },
        Event::PositionEventV2 { .. } => match (t.latitude, t.longitude) {
            (Some(lat), Some(lon)) => seq![(Property::PositionLatitudeLongitude, lat + seq![','] + lon)],
            _ => seq![],
        },
        _ => seq![],
    }
}

/// Whether every planned start that an event carries lies within the
/// datetimes that can be displayed.
pub open spec fn event_in_range(event: &Event) -> bool {
    match event {
        Event::PlannerEventV2 { attributes, .. } => match attributes.planner {
            Some(p) => match p.next_start_timestamp {
                Some(t) => t <= MAX_MOWER_MILLIS,
                None => true,
            },
            None => true,
        },
        _ => true,
    }
}

/// Whether an event publishes the current time: a planner event that says
/// that no start is planned.
pub open spec fn event_reads_clock(event: &Event) -> bool {
    match event {
        Event::PlannerEventV2 { attributes, .. } => match attributes.planner {
            Some(p) => p.next_start_timestamp == Some(0u64),
            None => false,
        },
        _ => false,
    }
}

fn clone_text(o: &Option<String>) -> (r: Option<String>)
    ensures
        opt_text(r) == opt_text(*o),
{
    match o {
        Some(s) => Some(s.clone()),
        None => None,
    }
}

fn push_update(updates: &mut Vec<PropertyUpdate>, property: Property, value: String)
    ensures
        updates_view(final(updates)@) == updates_view(old(updates)@) + seq![(property, value@)],
{
    updates.push(PropertyUpdate { property, value });
    assert(updates_view(updates@) =~= updates_view(old(updates)@) + seq![(property, value@)]);
}

fn push_text_update(updates: &mut Vec<PropertyUpdate>, property: Property, value: &Option<String>)
    ensures
        updates_view(final(updates)@) == updates_view(old(updates)@) + update_if(property, opt_text(*value)),
{
    match value {
        Some(v) => push_update(updates, property, v.clone()),
        None => {
            assert(updates_view(updates@) =~= updates_view(updates@) + update_if(property, opt_text(*value)));
        },
    }
}

impl MowerState {
    /// The state of a mower as the list of mowers reports it.
    pub fn from_data(data: &MowerData) -> (state: MowerState)
        ensures
            state@ == initial_state(data),
    {
        let (latitude, longitude) = match &data.positions {
            Some(ps) => if ps.len() > 0 {
                let last = &ps[ps.len() - 1];
                (clone_text(&last.latitude), clone_text(&last.longitude))
            } else {
                (None, None)
            },
            None => (None, None),
        };
        let (cutting_height, headlight_mode) = match &data.settings {
            Some(s) => (
                s.cutting_height,
                match &s.headlight {
                    Some(h) => Some(h.mode.clone()),
                    None => None,
                },
            ),
            None => (None, None),
        };
        MowerState {
            homie_status: if data.metadata.connected {
                DeviceStatus::Init
            } else {
                DeviceStatus::Disconnected
            },
            battery_percent: data.battery.battery_percent,
            latitude,
            longitude,
            mower_mode: data.mower.mode.clone(),
            mower_activity: data.mower.activity.clone(),
            mower_inactive_reason: clone_text(&data.mower.inactive_reason),
            mower_state: data.mower.state.clone(),
            work_area_id: data.mower.work_area_id,
            error_code: data.mower.error_code,
            error_code_timestamp: data.mower.error_code_timestamp,
            is_error_confirmable: data.mower.is_error_confirmable,
            planner_external_reason: data.planner.external_reason,
            planner_restricted_reason: data.planner.restricted_reason.clone(),
            planner_next_start: data.planner.next_start_timestamp,
            planner_override: match &data.planner.planner_override {
                Some(o) => Some(o.action.clone()),
                None => None,
            },
            cutting_height,
            headlight_mode,
        }
    }

    /// Applies an event: changes the state as the event says and returns the
    /// property values to publish, in order. `now` is the text of the current
    /// time, published when a planner event says that no start is planned.
    /// A planned start past 9999-12-31 cannot be displayed and is refused.
    pub fn apply_event(&mut self, event: &Event, now: &str) -> (updates: Vec<PropertyUpdate>)
        requires
            event_in_range(event),
        ensures
            final(self)@ == event_state(old(self)@, event),
            updates_view(updates@) == event_updates(old(self)@, event, now@),
    {
        proof {
            reveal(event_state);
            reveal(event_updates);
        }
        let mut updates: Vec<PropertyUpdate> = Vec::new();
        match event {
            Event::BatteryEventV2 { attributes, .. } => {
                match &attributes.battery {
                    Some(b) => match b.battery_percent {
                        Some(p) => { self.battery_percent = p; },
                        None => {},
                    },
                    None => {},
                }
                push_update(&mut updates, Property::BatteryLevel, unsigned_text(self.battery_percent as u64));
            },
            Event::CalendarEventV2 { .. } => {},
            Event::CuttingHeightEventV2 { attributes, .. } => {
                match &attributes.cutting_height {
                    Some(c) => match c.height {
                        Some(h) => { self.cutting_height = Some(h); },
                        None => {},
                    },
                    None => {},
                }
                match self.cutting_height {
                    Some(h) => push_update(&mut updates, Property::SettingsCuttingHeight, unsigned_text(h as u64)),
                    None => {},
                }
            },
            Event::HeadlightsEventV2 { attributes, .. } => {
                match &attributes.headlight {
                    Some(h) => { self.headlight_mode = Some(h.mode.clone()); },
                    None => {},
                }
                push_text_update(&mut updates, Property::SettingsHeadlight, &self.headlight_mode);
            },
            Event::MessageEventV2 { .. } => {},
            Event::MowerEventV2 { attributes, .. } => {
                match &attributes.mower {
                    Some(m) => {
                        push_text_update(&mut updates, Property::MowerMode, &m.mode);
                        push_text_update(&mut updates, Property::MowerActivity, &m.activity);
                        push_text_update(&mut updates, Property::MowerInactiveReason, &m.inactive_reason);
                        push_text_update(&mut updates, Property::MowerState, &m.state);
                        let code = match m.error_code {
                            Some(c) => Some(unsigned_text(c as u64)),
                            None => None,
                        };
                        push_text_update(&mut updates, Property::MowerErrorCode, &code);
                        let area = match m.work_area_id {
                            Some(w) => Some(signed_text(w)),
                            None => None,
                        };
                        push_text_update(&mut updates, Property::MowerWorkArea, &area);
                    },
                    None => {},
                }
            },
            Event::PlannerEventV2 { attributes, .. } => {
                match &attributes.planner {
                    Some(p) => {
                        let next = match p.next_start_timestamp {
                            Some(t) => if t == 0 {
                                Some(now.to_string())
                            } else {
                                Some(mower_datetime(t))
                            },
                            None => None,
                        };
                        push_text_update(&mut updates, Property::PlannerNextStart, &next);
                        let action = match &p.planner_override {
                            Some(o) => Some(o.action.clone()),
                            None => None,
                        };
                        push_text_update(&mut updates, Property::PlannerOverride, &action);
                        push_text_update(&mut updates, Property::PlannerRestrictedReason, &p.restricted_reason);
                        let reason = match p.external_reason {
                            Some(r) => Some(signed_text(r as i64)),
                            None => None,
                        };
                        push_text_update(&mut updates, Property::PlannerExternalReason, &reason);
                    },
                    None => {},
                }
            },
            Event::PositionEventV2 { attributes, .. } => {
                match &attributes.position {
                    Some(p) => {
                        match &p.latitude {
                            Some(l) => { self.latitude = Some(l.clone()); },
                            None => {},
                        }
                        match &p.longitude {
                            Some(l) => { self.longitude = Some(l.clone()); },
                            None => {},
                        }
                    },
                    None => {},
                }
                match (&self.latitude, &self.longitude) {
                    (Some(lat), Some(lon)) => {
                        proof { reveal_strlit(","); }
                        let mut text = lat.clone();
                        text.append(",");
                        text.append(lon.as_str());
                        assert(","@ == seq![',']);
                        assert(text@ == lat@ + seq![','] + lon@);
                        assert(self@ == event_state(old(self)@, event));
                        push_update(&mut updates, Property::PositionLatitudeLongitude, text);
                    },
                    _ => {},
                }
            },
        }
        assert(updates_view(updates@) =~= event_updates(old(self)@, event, now@));
        updates
    }

    /// Applies an event as `apply_event` does, reading the clock only when the
    /// event publishes the current time. The state changes as the event says;
    /// the updates are those of the event at some time, and do not depend on
    /// the time when the event does not read the clock.
    pub fn record_event(&mut self, event: &Event) -> (updates: Vec<PropertyUpdate>)
        requires
            event_in_range(event),
        ensures
            final(self)@ == event_state(old(self)@, event),
            exists|now: Seq<char>| updates_view(updates@) == event_updates(old(self)@, event, now),
            !event_reads_clock(event) ==> updates_view(updates@) == event_updates(old(self)@, event, Seq::empty()),
            event_reads_clock(event) ==> exists|now: Seq<char>|
                is_utc_timestamp_text(now) && updates_view(updates@) == event_updates(old(self)@, event, now),
            planned_start(event) matches Some(t) ==> {
                &&& updates.len() > 0
                &&& updates[0].property == Property::PlannerNextStart
                &&& t == 0 ==> is_utc_timestamp_text(updates[0].value@)
                &&& t != 0 ==> updates[0].value@ == mower_datetime_text(t as nat)
            },
    {
        let now = if reads_clock(event) {
            current_time_text()
        } else {
            String::new()
        };
        let ghost before = self@;
        let updates = self.apply_event(event, now.as_str());
        proof {
            if !event_reads_clock(event) {
                lemma_clock_irrelevant(before, event, now@);
            }
            if planned_start(event) is Some {
                lemma_planned_start_published(before, event, now@);
                assert(updates_view(updates@)[0] == (updates@[0].property, updates@[0].value@));
            }
        }
        updates
    }
}

/// The start that a planner event plans, if it carries one.
pub open spec fn planned_start(event: &Event) -> Option<u64> {
    match event {
        Event::PlannerEventV2 { attributes, .. } => match attributes.planner {
            Some(p) => p.next_start_timestamp,
            None => None,
        },
        _ => None,
    }
}

/// A planner event that carries a planned start publishes the next start
/// first: the time `now` when no start is planned (the timestamp 0), the
/// planned datetime otherwise.
pub proof fn lemma_planned_start_published(s: MowerStateView, event: &Event, now: Seq<char>)
    requires
        planned_start(event) is Some,
    ensures
        event_updates(s, event, now).len() > 0,
        event_updates(s, event, now)[0].0 == Property::PlannerNextStart,
        planned_start(event) == Some(0u64) ==> event_updates(s, event, now)[0].1 == now,
        planned_start(event) is Some && planned_start(event) != Some(0u64) ==> event_updates(s, event, now)[0].1
            == mower_datetime_text(planned_start(event)->0 as nat),
        planned_start(event) == Some(0u64) <==> event_reads_clock(event),
{
    reveal(event_updates);
}

fn reads_clock(event: &Event) -> (r: bool)
    ensures
        r == event_reads_clock(event),
{
    match event {
        Event::PlannerEventV2 { attributes, .. } => match &attributes.planner {
            Some(p) => match p.next_start_timestamp {
                Some(t) => t == 0,
                None => false,
            },
            None => false,
        },
        _ => false,
    }
}

/// The current time matters only to events that read the clock.
pub proof fn lemma_clock_irrelevant(s: MowerStateView, event: &Event, now: Seq<char>)
    requires
        !event_reads_clock(event),
    ensures
        event_updates(s, event, now) == event_updates(s, event, Seq::empty()),
{
    reveal(event_updates);
}

/// The inactive reason published when the mower reports none.
pub open spec fn no_reason() -> Seq<char> {
    seq!['N', 'O', 'N', 'E']
}

/// A mower event about `id` that carries the remembered mower values of `s`.
pub open spec fn mower_refresh(s: MowerStateView, id: Seq<char>, event: &Event) -> bool {
    match event {
        Event::MowerEventV2 { id: i, attributes } => i@ == id && match attributes.mower {
            Some(m) => {
                &&& opt_text(m.mode) == Some(s.mower_mode)
                &&& opt_text(m.activity) == Some(s.mower_activity)
                &&& opt_text(m.inactive_reason) == Some(
                    match s.mower_inactive_reason {
                        Some(r) => r,
                        None => no_reason(),
                    },
                )
                &&& opt_text(m.state) == Some(s.mower_state)
                &&& m.work_area_id == s.work_area_id
                &&& m.error_code == s.error_code
                &&& m.error_code_timestamp == s.error_code_timestamp
                &&& m.is_error_confirmable == s.is_error_confirmable
            },
            None => false,
        },
        _ => false,
    }
}

/// A planner event about `id` that carries the remembered schedule of `s`.
pub open spec fn planner_refresh(s: MowerStateView, id: Seq<char>, event: &Event) -> bool {
    match event {
        Event::PlannerEventV2 { id: i, attributes } => i@ == id && match attributes.planner {
            Some(p) => {
                &&& p.next_start_timestamp == Some(s.planner_next_start)
                &&& match p.planner_override {
                    Some(o) => Some(o.action@),
                    None => None,
                } == s.planner_override
                &&& opt_text(p.restricted_reason) == Some(s.planner_restricted_reason)
                &&& p.external_reason == s.planner_external_reason
            },
            None => false,
        },
        _ => false,
    }
}

/// The events that republish what is remembered of a mower with API id `id`
/// in state `s`, in order: a battery event and a position event that carry
/// nothing, a mower event with the remembered mode, activity, inactive reason
/// (`NONE` when there is none), state, work area and error, a planner event
/// with the remembered schedule, and a headlight event and a cutting height
/// event that carry nothing.
pub open spec fn refresh_events(s: MowerStateView, id: Seq<char>, events: Seq<Event>) -> bool {
    &&& events.len() == 6
    &&& events[0] matches Event::BatteryEventV2 { id: i, attributes } && i@ == id
        && attributes.battery is None
    &&& events[1] matches Event::PositionEventV2 { id: i, attributes } && i@ == id
        && attributes.position is None
    &&& mower_refresh(s, id, &events[2])
    &&& planner_refresh(s, id, &events[3])
    &&& events[4] matches Event::HeadlightsEventV2 { id: i, attributes } && i@ == id
        && attributes.headlight is None
    &&& events[5] matches Event::CuttingHeightEventV2 { id: i, attributes } && i@ == id
        && attributes.cutting_height is None
}

/// Every remembered value of a mower in state `s`, as published when its
/// device comes online: battery level, position when both coordinates are
/// known, mode, activity, inactive reason (`NONE` when there is none), state,
/// error code and work area when known, next start (the time `now` when no
/// start is planned), override action when known, restricted reason, external
/// reason when known, headlight mode and cutting height when known.
pub open spec fn refresh_updates(s: MowerStateView, now: Seq<char>) -> Seq<(Property, Seq<char>)> {
    seq![(Property::BatteryLevel, decimal(s.battery_percent as nat))] + match (s.latitude, s.longitude) {
        (Some(lat), Some(lon)) => seq![(Property::PositionLatitudeLongitude, lat + seq![','] + lon)],
        _ => seq![],
    } + seq![
        (Property::MowerMode, s.mower_mode),
        (Property::MowerActivity, s.mower_activity),
        (
            Property::MowerInactiveReason,
            match s.mower_inactive_reason {
                Some(r) => r,
                None => no_reason(),
            },
        ),
        (Property::MowerState, s.mower_state),
    ] + update_if(
        Property::MowerErrorCode,
        match s.error_code {
            Some(c) => Some(decimal(c as nat)),
            None => None,
        },
    ) + update_if(
        Property::MowerWorkArea,
        match s.work_area_id {
            Some(w) => Some(signed_decimal(w as int)),
            None => None,
        },
    ) + seq![(Property::PlannerNextStart, next_start_text(s.planner_next_start, now))] + update_if(
        Property::PlannerOverride,
        s.planner_override,
    ) + seq![(Property::PlannerRestrictedReason, s.planner_restricted_reason)] + update_if(
        Property::PlannerExternalReason,
        match s.planner_external_reason {
            Some(r) => Some(signed_decimal(r as int)),
            None => None,
        },
    ) + update_if(Property::SettingsHeadlight, s.headlight_mode) + update_if(
        Property::SettingsCuttingHeight,
        match s.cutting_height {
            Some(h) => Some(decimal(h as nat)),
            None => None,
        },
    )
}

/// Republishing a mower publishes its next start: the time `now` when no
/// start is planned (the timestamp 0), the planned datetime otherwise.
pub proof fn lemma_refresh_publishes_next_start(s: MowerStateView, now: Seq<char>) -> (k: int)
    ensures
        0 <= k < refresh_updates(s, now).len(),
        refresh_updates(s, now)[k].0 == Property::PlannerNextStart,
        s.planner_next_start == 0 ==> refresh_updates(s, now)[k].1 == now,
        s.planner_next_start != 0 ==> refresh_updates(s, now)[k].1 == mower_datetime_text(
            s.planner_next_start as nat,
        ),
{
    let a = seq![(Property::BatteryLevel, decimal(s.battery_percent as nat))] + match (s.latitude, s.longitude) {
        (Some(lat), Some(lon)) => seq![(Property::PositionLatitudeLongitude, lat + seq![','] + lon)],
        _ => seq![],
    } + seq![
        (Property::MowerMode, s.mower_mode),
        (Property::MowerActivity, s.mower_activity),
        (
            Property::MowerInactiveReason,
            match s.mower_inactive_reason {
                Some(r) => r,
                None => no_reason(),
            },
        ),
        (Property::MowerState, s.mower_state),
    ] + update_if(
        Property::MowerErrorCode,
        match s.error_code {
            Some(c) => Some(decimal(c as nat)),
            None => None,
        },
    ) + update_if(
        Property::MowerWorkArea,
        match s.work_area_id {
            Some(w) => Some(signed_decimal(w as int)),
            None => None,
        },
    );
    let b = a + seq![(Property::PlannerNextStart, next_start_text(s.planner_next_start, now))];
    assert(b[a.len() as int] == (Property::PlannerNextStart, next_start_text(s.planner_next_start, now)));
    let r = refresh_updates(s, now);
    assert(r.len() >= b.len());
    assert(r[a.len() as int] == b[a.len() as int]);
    a.len() as int
}

/// The updates of a list of events applied one after another, starting in
/// state `s`.
pub open spec fn replay_updates(s: MowerStateView, events: Seq<Event>, now: Seq<char>) -> Seq<(Property, Seq<char>)>
    decreases events.len(),
{
    if events.len() == 0 {
        seq![]
    } else {
        event_updates(s, &events[0], now) + replay_updates(
            event_state(s, &events[0]),
            events.drop_first(),
            now,
        )
    }
}

/// The state after a list of events applied one after another, starting in
/// state `s`.
pub open spec fn replay_state(s: MowerStateView, events: Seq<Event>) -> MowerStateView
    decreases events.len(),
{
    if events.len() == 0 {
        s
    } else {
        replay_state(event_state(s, &events[0]), events.drop_first())
    }
}

/// Replaying the events that republish a mower leaves its state as it was.
pub proof fn lemma_refresh_keeps_state(s: MowerStateView, id: Seq<char>, events: Seq<Event>)
    requires
        refresh_events(s, id, events),
    ensures
        replay_state(s, events) == s,
{
    reveal(event_state);
    reveal_with_fuel(replay_state, 7);
    let e = events;
    assert(e.drop_first()[0] == e[1]);
    assert(e.drop_first().drop_first()[0] == e[2]);
    assert(e.drop_first().drop_first().drop_first()[0] == e[3]);
    assert(e.drop_first().drop_first().drop_first().drop_first()[0] == e[4]);
    assert(e.drop_first().drop_first().drop_first().drop_first().drop_first()[0] == e[5]);
    assert(e.drop_first().drop_first().drop_first().drop_first().drop_first().drop_first().len() == 0);
}

proof fn lemma_replay_six(s: MowerStateView, e: Seq<Event>, now: Seq<char>)
    requires
        e.len() == 6,
        forall|k: int| 0 <= k < 6 ==> event_state(s, #[trigger] &e[k]) == s,
    ensures
        replay_updates(s, e, now) == event_updates(s, &e[0], now) + event_updates(s, &e[1], now)
            + event_updates(s, &e[2], now) + event_updates(s, &e[3], now) + event_updates(s, &e[4], now)
            + event_updates(s, &e[5], now),
{
    let e1 = e.drop_first();
    let e2 = e1.drop_first();
    let e3 = e2.drop_first();
    let e4 = e3.drop_first();
    let e5 = e4.drop_first();
    let e6 = e5.drop_first();
    assert(e1[0] == e[1]);
    assert(e2[0] == e[2]);
    assert(e3[0] == e[3]);
    assert(e4[0] == e[4]);
    assert(e5[0] == e[5]);
    assert(event_state(s, &e[0]) == s);
    assert(event_state(s, &e[1]) == s);
    assert(event_state(s, &e[2]) == s);
    assert(event_state(s, &e[3]) == s);
    assert(event_state(s, &e[4]) == s);
    assert(event_state(s, &e[5]) == s);
    assert(replay_updates(s, e6, now) == Seq::<(Property, Seq<char>)>::empty());
    assert(replay_updates(s, e5, now) == event_updates(s, &e[5], now) + replay_updates(s, e6, now));
    assert(replay_updates(s, e4, now) == event_updates(s, &e[4], now) + replay_updates(s, e5, now));
    assert(replay_updates(s, e3, now) == event_updates(s, &e[3], now) + replay_updates(s, e4, now));
    assert(replay_updates(s, e2, now) == event_updates(s, &e[2], now) + replay_updates(s, e3, now));
    assert(replay_updates(s, e1, now) == event_updates(s, &e[1], now) + replay_updates(s, e2, now));
    assert(replay_updates(s, e, now) == event_updates(s, &e[0], now) + replay_updates(s, e1, now));
    assert(replay_updates(s, e, now) =~= event_updates(s, &e[0], now) + event_updates(s, &e[1], now)
        + event_updates(s, &e[2], now) + event_updates(s, &e[3], now) + event_updates(s, &e[4], now)
        + event_updates(s, &e[5], now));
}

proof fn lemma_mower_refresh_updates(s: MowerStateView, id: Seq<char>, event: &Event, now: Seq<char>)
    requires
        mower_refresh(s, id, event),
    ensures
        event_updates(s, event, now) == seq![
            (Property::MowerMode, s.mower_mode),
            (Property::MowerActivity, s.mower_activity),
            (
                Property::MowerInactiveReason,
                match s.mower_inactive_reason {
                    Some(r) => r,
                    None => no_reason(),
                },
            ),
            (Property::MowerState, s.mower_state),
        ] + update_if(
            Property::MowerErrorCode,
            match s.error_code {
                Some(c) => Some(decimal(c as nat)),
                None => None,
            },
        ) + update_if(
            Property::MowerWorkArea,
            match s.work_area_id {
                Some(w) => Some(signed_decimal(w as int)),
                None => None,
            },
        ),
{
    reveal(event_updates);
    reveal(event_state);
    if let Event::MowerEventV2 { attributes, .. } = event {
        if let Some(m) = attributes.mower {
            assert(mower_report_updates(m) =~= seq![
                (Property::MowerMode, s.mower_mode),
                (Property::MowerActivity, s.mower_activity),
                (
                    Property::MowerInactiveReason,
                    match s.mower_inactive_reason {
                        Some(r) => r,
                        None => no_reason(),
                    },
                ),
                (Property::MowerState, s.mower_state),
            ] + update_if(
                Property::MowerErrorCode,
                match s.error_code {
                    Some(c) => Some(decimal(c as nat)),
                    None => None,
                },
            ) + update_if(
                Property::MowerWorkArea,
                match s.work_area_id {
                    Some(w) => Some(signed_decimal(w as int)),
                    None => None,
                },
            ));
        }
    }
}

proof fn lemma_planner_refresh_updates(s: MowerStateView, id: Seq<char>, event: &Event, now: Seq<char>)
    requires
        planner_refresh(s, id, event),
    ensures
        event_updates(s, event, now) == seq![(Property::PlannerNextStart, next_start_text(s.planner_next_start, now))]
            + update_if(Property::PlannerOverride, s.planner_override) + seq![
            (Property::PlannerRestrictedReason, s.planner_restricted_reason),
        ] + update_if(
            Property::PlannerExternalReason,
            match s.planner_external_reason {
                Some(r) => Some(signed_decimal(r as int)),
                None => None,
            },
        ),
{
    reveal(event_updates);
    reveal(event_state);
    if let Event::PlannerEventV2 { attributes, .. } = event {
        if let Some(p) = attributes.planner {
            assert(planner_report_updates(p, now) =~= seq![
                (Property::PlannerNextStart, next_start_text(s.planner_next_start, now)),
            ] + update_if(Property::PlannerOverride, s.planner_override) + seq![
                (Property::PlannerRestrictedReason, s.planner_restricted_reason),
            ] + update_if(
                Property::PlannerExternalReason,
                match s.planner_external_reason {
                    Some(r) => Some(signed_decimal(r as int)),
                    None => None,
                },
            ));
        }
    }
}

proof fn lemma_refresh_each(s: MowerStateView, id: Seq<char>, e: Seq<Event>, now: Seq<char>)
    requires
        refresh_events(s, id, e),
    ensures
        forall|k: int| 0 <= k < 6 ==> event_state(s, #[trigger] &e[k]) == s,
        event_updates(s, &e[0], now) == seq![(Property::BatteryLevel, decimal(s.battery_percent as nat))],
        event_updates(s, &e[1], now) == match (s.latitude, s.longitude) {
            (Some(lat), Some(lon)) => seq![(Property::PositionLatitudeLongitude, lat + seq![','] + lon)],
            _ => seq![],
        },
        event_updates(s, &e[4], now) == update_if(Property::SettingsHeadlight, s.headlight_mode),
        event_updates(s, &e[5], now) == update_if(
            Property::SettingsCuttingHeight,
            match s.cutting_height {
                Some(h) => Some(decimal(h as nat)),
                None => None,
            },
        ),
{
    reveal(event_updates);
    reveal(event_state);
}

proof fn lemma_regroup<T>(
    u0: Seq<T>, u1: Seq<T>, a: Seq<T>, b: Seq<T>, c: Seq<T>, d: Seq<T>, e: Seq<T>, f: Seq<T>,
    g: Seq<T>, u4: Seq<T>, u5: Seq<T>,
)
    ensures
        u0 + u1 + (a + b + c) + (d + e + f + g) + u4 + u5 == u0 + u1 + a + b + c + d + e + f + g + u4 + u5,
{
    assert(u0 + u1 + (a + b + c) + (d + e + f + g) + u4 + u5 =~= u0 + u1 + a + b + c + d + e + f + g + u4 + u5);
}

proof fn lemma_refresh_steps(s: MowerStateView, id: Seq<char>, e: Seq<Event>, now: Seq<char>)
    requires
        refresh_events(s, id, e),
    ensures
        forall|k: int| 0 <= k < 6 ==> event_state(s, #[trigger] &e[k]) == s,
        event_updates(s, &e[0], now) + event_updates(s, &e[1], now) + event_updates(s, &e[2], now)
            + event_updates(s, &e[3], now) + event_updates(s, &e[4], now) + event_updates(s, &e[5], now)
            == refresh_updates(s, now),
{
    lemma_refresh_each(s, id, e, now);
    lemma_mower_refresh_updates(s, id, &e[2], now);
    lemma_planner_refresh_updates(s, id, &e[3], now);
    lemma_regroup(
        event_updates(s, &e[0], now),
        event_updates(s, &e[1], now),
        seq![
            (Property::MowerMode, s.mower_mode),
            (Property::MowerActivity, s.mower_activity),
            (
                Property::MowerInactiveReason,
                match s.mower_inactive_reason {
                    Some(r) => r,
                    None => no_reason(),
                },
            ),
            (Property::MowerState, s.mower_state),
        ],
        update_if(
            Property::MowerErrorCode,
            match s.error_code {
                Some(c) => Some(decimal(c as nat)),
                None => None,
            },
        ),
        update_if(
            Property::MowerWorkArea,
            match s.work_area_id {
                Some(w) => Some(signed_decimal(w as int)),
                None => None,
            },
        ),
        seq![(Property::PlannerNextStart, next_start_text(s.planner_next_start, now))],
        update_if(Property::PlannerOverride, s.planner_override),
        seq![(Property::PlannerRestrictedReason, s.planner_restricted_reason)],
        update_if(
            Property::PlannerExternalReason,
            match s.planner_external_reason {
                Some(r) => Some(signed_decimal(r as int)),
                None => None,
            },
        ),
        event_updates(s, &e[4], now),
        event_updates(s, &e[5], now),
    );
}

/// Replaying the events that republish a mower publishes every remembered
/// value of it.
pub proof fn lemma_refresh_publishes_state(s: MowerStateView, id: Seq<char>, events: Seq<Event>, now: Seq<char>)
    requires
        refresh_events(s, id, events),
    ensures
        replay_updates(s, events, now) == refresh_updates(s, now),
{
    lemma_refresh_steps(s, id, events, now);
    lemma_replay_six(s, events, now);
}

impl MowerState {
    /// The events that republish this mower's remembered values under API id
    /// `api_id`.
    pub fn refresh_events(&self, api_id: &String) -> (events: Vec<Event>)
        ensures
            refresh_events(self@, api_id@, events@),
    {
        proof { reveal_strlit("NONE"); }
        let inactive_reason = match &self.mower_inactive_reason {
            Some(r) => r.clone(),
            None => "NONE".to_string(),
        };
        let mower = MowerReport {
            mode: Some(self.mower_mode.clone()),
            activity: Some(self.mower_activity.clone()),
            inactive_reason: Some(inactive_reason),
            state: Some(self.mower_state.clone()),
            work_area_id: self.work_area_id,
            error_code: self.error_code,
            error_code_timestamp: self.error_code_timestamp,
            is_error_confirmable: self.is_error_confirmable,
        };
        let planner = PlannerReport {
            next_start_timestamp: Some(self.planner_next_start),
            planner_override: match &self.planner_override {
                Some(o) => Some(PlannerOverride { action: o.clone() }),
                None => None,
            },
            restricted_reason: Some(self.planner_restricted_reason.clone()),
            external_reason: self.planner_external_reason,
        };
        let events = vec![
            Event::BatteryEventV2 { id: api_id.clone(), attributes: BatteryAttributes { battery: None } },
            Event::PositionEventV2 { id: api_id.clone(), attributes: PositionAttributes { position: None } },
            Event::MowerEventV2 { id: api_id.clone(), attributes: MowerAttributes { mower: Some(mower) } },
            Event::PlannerEventV2 { id: api_id.clone(), attributes: PlannerAttributes { planner: Some(planner) } },
            Event::HeadlightsEventV2 { id: api_id.clone(), attributes: HeadlightAttributes { headlight: None } },
            Event::CuttingHeightEventV2 {
                id: api_id.clone(),
                attributes: CuttingHeightAttributes { cutting_height: None },
            },
        ];
        assert(events@[0] matches Event::BatteryEventV2 { id: i, attributes } && i@ == api_id@);
        assert(inactive_reason@ == match self@.mower_inactive_reason { Some(r) => r, None => no_reason() });
        assert(opt_text(mower.mode) == Some(self@.mower_mode));
        assert(events@[2] matches Event::MowerEventV2 { id: i, attributes } && i@ == api_id@);
        assert(mower_refresh(self@, api_id@, &events@[2]));
        assert(planner_refresh(self@, api_id@, &events@[3]));
        events
    }
}

fn append_updates(updates: &mut Vec<PropertyUpdate>, more: Vec<PropertyUpdate>)
    ensures
        updates_view(final(updates)@) == updates_view(old(updates)@) + updates_view(more@),
{
    let mut more = more;
    let ghost more_view = more@;
    updates.append(&mut more);
    assert(updates_view(updates@) =~= updates_view(old(updates)@) + updates_view(more_view));
}

impl MowerState {
    /// Republishes what is remembered of the mower: replays the events of
    /// `refresh_events` and returns the values they publish, which are every
    /// remembered value. The state stays as it was. The clock is read only
    /// when no start is planned; a planned start past 9999-12-31 cannot be
    /// displayed and is refused.
    pub fn refresh(&mut self, api_id: &String) -> (updates: Vec<PropertyUpdate>)
        requires
            old(self)@.planner_next_start <= MAX_MOWER_MILLIS,
        ensures
            final(self)@ == old(self)@,
            exists|now: Seq<char>| updates_view(updates@) == refresh_updates(old(self)@, now),
            old(self)@.planner_next_start != 0 ==> updates_view(updates@) == refresh_updates(old(self)@, Seq::empty()),
            old(self)@.planner_next_start == 0 ==> exists|now: Seq<char>|
                is_utc_timestamp_text(now) && updates_view(updates@) == refresh_updates(old(self)@, now),
            exists|k: int|
                0 <= k < updates.len() && updates[k].property == Property::PlannerNextStart && if old(
                    self,
                )@.planner_next_start == 0 {
                    is_utc_timestamp_text(updates[k].value@)
                } else {
                    updates[k].value@ == mower_datetime_text(old(self)@.planner_next_start as nat)
                },
    {
        let ghost s = self@;
        let events = self.refresh_events(api_id);
        let now = if self.planner_next_start == 0 {
            current_time_text()
        } else {
            String::new()
        };
        proof {
            lemma_refresh_steps(s, api_id@, events@, now@);
        }
        let mut updates = self.apply_event(&events[0], now.as_str());
        let more = self.apply_event(&events[1], now.as_str());
        append_updates(&mut updates, more);
        let more = self.apply_event(&events[2], now.as_str());
        append_updates(&mut updates, more);
        let more = self.apply_event(&events[3], now.as_str());
        append_updates(&mut updates, more);
        let more = self.apply_event(&events[4], now.as_str());
        append_updates(&mut updates, more);
        let more = self.apply_event(&events[5], now.as_str());
        append_updates(&mut updates, more);
        proof {
            let k = lemma_refresh_publishes_next_start(s, now@);
            assert(updates_view(updates@)[k] == (updates@[k].property, updates@[k].value@));
        }
        updates
    }
}

/// Delivering an event twice changes nothing more than delivering it once,
/// and republishes the same values.
pub proof fn lemma_event_idempotent(s: MowerStateView, event: &Event, now: Seq<char>)
    ensures
        event_state(event_state(s, event), event) == event_state(s, event),
        event_updates(event_state(s, event), event, now) == event_updates(s, event, now),
{
    reveal(event_state);
    reveal(event_updates);
}

/// No event changes the device state, what the mower is doing, its errors or
/// its schedule: mower and planner events publish what they carry without
/// remembering it.
pub proof fn lemma_event_frame(s: MowerStateView, event: &Event)
    ensures
        ({
            let t = event_state(s, event);
            &&& t.homie_status == s.homie_status
            &&& t.mower_mode == s.mower_mode
            &&& t.mower_activity == s.mower_activity
            &&& t.mower_inactive_reason == s.mower_inactive_reason
            &&& t.mower_state == s.mower_state
            &&& t.work_area_id == s.work_area_id
            &&& t.error_code == s.error_code
            &&& t.error_code_timestamp == s.error_code_timestamp
            &&& t.is_error_confirmable == s.is_error_confirmable
            &&& t.planner_external_reason == s.planner_external_reason
            &&& t.planner_restricted_reason == s.planner_restricted_reason
            &&& t.planner_next_start == s.planner_next_start
            &&& t.planner_override == s.planner_override
        }),
        match event {
            Event::MowerEventV2 { .. } | Event::PlannerEventV2 { .. } | Event::CalendarEventV2 { .. }
            | Event::MessageEventV2 { .. } => event_state(s, event) == s,
            _ => true,
        },
{
    reveal(event_state);
}

/// Calendar and message events publish nothing, and so do mower and planner
/// events that carry no report.
pub proof fn lemma_silent_events(s: MowerStateView, event: &Event, now: Seq<char>)
    ensures
        match event {
            Event::CalendarEventV2 { .. } | Event::MessageEventV2 { .. } => event_updates(s, event, now).len() == 0,
            Event::MowerEventV2 { attributes, .. } => attributes.mower is None ==> event_updates(s, event, now).len() == 0,
            Event::PlannerEventV2 { attributes, .. } => attributes.planner is None ==> event_updates(s, event, now).len() == 0,
            _ => true,
        },
{
    reveal(event_updates);
}

/// A battery event always publishes exactly one battery level: the one it
/// carries, or the remembered one when it carries none.
pub proof fn lemma_battery_level_published(s: MowerStateView, event: &Event, now: Seq<char>)
    requires
        event is BatteryEventV2,
    ensures
        event_updates(s, event, now) == seq![
            (Property::BatteryLevel, decimal(event_state(s, event).battery_percent as nat)),
        ],
        match event {
            Event::BatteryEventV2 { attributes, .. } => event_state(s, event).battery_percent == match attributes.battery {
                Some(b) => match b.battery_percent {
                    Some(p) => p,
                    None => s.battery_percent,
                },
                None => s.battery_percent,
            },
            _ => true,
        },
{
    reveal(event_updates);
    reveal(event_state);
}

} // verus!
