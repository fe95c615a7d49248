//! What the Automower Connect API reports of each mower, as far as this
//! bridge reads it.
use vstd::prelude::*;

verus! {

/// The mower's system information.
pub struct System {
    pub name: String,
}

/// The mower's battery.
pub struct Battery {
    pub battery_percent: u8,
}

/// What the mower is doing.
pub struct MowerApp {
    pub mode: String,
    pub activity: String,
    pub inactive_reason: Option<String>,
    pub state: String,
    pub work_area_id: Option<i64>,
    pub error_code: Option<u16>,
    pub error_code_timestamp: Option<u64>,
    pub is_error_confirmable: Option<bool>,
}

/// An action that overrides the mower's schedule.
pub struct PlannerOverride {
    pub action: String,
}

/// The mower's schedule.
pub struct Planner {
    /// Milliseconds since 1970-01-01T00:00:00 in the mower's local time, or
    /// zero when no start is planned.
    pub next_start_timestamp: u64,
    pub planner_override: Option<PlannerOverride>,
    pub restricted_reason: String,
    pub external_reason: Option<i32>,
}

/// Whether the mower is connected to the cloud.
pub struct Metadata {
    pub connected: bool,
}

/// A position of the mower. Each coordinate stands as the decimal text with
/// which it is displayed.
pub struct Position {
    pub latitude: Option<String>,
    pub longitude: Option<String>,
}

/// The mower's headlight.
pub struct Headlight {
    pub mode: String,
}

/// The mower's settings.
pub struct Settings {
    pub cutting_height: Option<u8>,
    pub headlight: Option<Headlight>,
}

/// The attributes of a mower in the list of mowers.
pub struct MowerData {
    pub system: System,
    pub battery: Battery,
    pub mower: MowerApp,
    pub planner: Planner,
    pub metadata: Metadata,
    pub positions: Option<Vec<Position>>,
    pub settings: Option<Settings>,
}

/// One entry of the list of mowers: its JSON:API type, its id and its
/// attributes.
pub struct JsonApiData {
    pub kind: String,
    pub id: String,
    pub attributes: MowerData,
}

} // verus!
