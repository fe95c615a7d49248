//! The events that the Automower Connect websocket sends, as far as this
//! bridge reads them.
use crate::api::{Headlight, PlannerOverride, Position};
use vstd::prelude::*;

verus! {

/// A new battery reading.
pub struct BatteryReading {
    pub battery_percent: Option<u8>,
}

pub struct BatteryAttributes {
    pub battery: Option<BatteryReading>,
}

/// A new cutting height.
pub struct CuttingHeight {
    pub height: Option<u8>,
}

pub struct CuttingHeightAttributes {
    pub cutting_height: Option<CuttingHeight>,
}

pub struct HeadlightAttributes {
    pub headlight: Option<Headlight>,
}

/// A change of what the mower is doing.
pub struct MowerReport {
    pub mode: Option<String>,
    pub activity: Option<String>,
    pub inactive_reason: Option<String>,
    pub state: Option<String>,
    pub work_area_id: Option<i64>,
    pub error_code: Option<u16>,
    pub error_code_timestamp: Option<u64>,
    pub is_error_confirmable: Option<bool>,
}

pub struct MowerAttributes {
    pub mower: Option<MowerReport>,
}

/// A change of the mower's schedule.
pub struct PlannerReport {
    pub next_start_timestamp: Option<u64>,
    pub planner_override: Option<PlannerOverride>,
    pub restricted_reason: Option<String>,
    pub external_reason: Option<i32>,
}

pub struct PlannerAttributes {
    pub planner: Option<PlannerReport>,
}

pub struct PositionAttributes {
    pub position: Option<Position>,
}

/// An event about the mower with the given API id. Calendar and message
/// events carry nothing that this bridge reads.
#[allow(inconsistent_fields)]
pub enum Event {
    BatteryEventV2 { id: String, attributes: BatteryAttributes },
    CalendarEventV2 { id: String },
    CuttingHeightEventV2 { id: String, attributes: CuttingHeightAttributes },
    HeadlightsEventV2 { id: String, attributes: HeadlightAttributes },
    MessageEventV2 { id: String },
    MowerEventV2 { id: String, attributes: MowerAttributes },
    PlannerEventV2 { id: String, attributes: PlannerAttributes },
    PositionEventV2 { id: String, attributes: PositionAttributes },
}

/// The API id of the mower an event is about.
pub open spec fn event_id(event: &Event) -> Seq<char> {
    match event {
        Event::BatteryEventV2 { id, .. } => id@,
        Event::CalendarEventV2 { id } => id@,
        Event::CuttingHeightEventV2 { id, .. } => id@,
        Event::HeadlightsEventV2 { id, .. } => id@,
        Event::MessageEventV2 { id } => id@,
        Event::MowerEventV2 { id, .. } => id@,
        Event::PlannerEventV2 { id, .. } => id@,
        Event::PositionEventV2 { id, .. } => id@,
    }
}

impl Event {
    /// The API id of the mower the event is about.
    pub fn id(&self) -> (id: &String)
        ensures
            id@ == event_id(self),
    {
        match self {
            Event::BatteryEventV2 { id, .. } => id,
            Event::CalendarEventV2 { id } => id,
            Event::CuttingHeightEventV2 { id, .. } => id,
            Event::HeadlightsEventV2 { id, .. } => id,
            Event::MessageEventV2 { id } => id,
            Event::MowerEventV2 { id, .. } => id,
            Event::PlannerEventV2 { id, .. } => id,
            Event::PositionEventV2 { id, .. } => id,
        }
    }
}

} // verus!
