//! The nodes and properties that each mower device exposes, and their layout
//! in the device description.
use crate::homie::{is_homie_id, DataType};
use vstd::prelude::*;

verus! {

broadcast use vstd::string::group_string_axioms;

/// A node of a mower device.
#[derive(Clone, Copy, Debug, PartialEq, Eq, Structural)]
pub enum Node {
    Battery,
    Position,
    Mower,
    Planner,
    Settings,
}

/// A property of a mower device.
#[derive(Clone, Copy, Debug, PartialEq, Eq, Structural)]
pub enum Property {
    BatteryLevel,
    PositionLatitudeLongitude,
    MowerMode,
    MowerActivity,
    MowerInactiveReason,
    MowerState,
    MowerErrorCode,
    MowerWorkArea,
    PlannerNextStart,
    PlannerOverride,
    PlannerRestrictedReason,
    PlannerExternalReason,
    SettingsCuttingHeight,
    SettingsHeadlight,
}

/// The Homie id of a node.
pub open spec fn node_text(node: Node) -> Seq<char> {
    match node {
        Node::Battery => seq!['b', 'a', 't', 't', 'e', 'r', 'y'],
        Node::Position => seq!['p', 'o', 's', 'i', 't', 'i', 'o', 'n'],
        Node::Mower => seq!['m', 'o', 'w', 'e', 'r'],
        Node::Planner => seq!['p', 'l', 'a', 'n', 'n', 'e', 'r'],
        Node::Settings => seq!['s', 'e', 't', 't', 'i', 'n', 'g', 's'],
    }
}

/// The node that a property belongs to.
pub open spec fn property_node(property: Property) -> Node {
    match property {
        Property::BatteryLevel => Node::Battery,
        Property::PositionLatitudeLongitude => Node::Position,
        Property::MowerMode | Property::MowerActivity | Property::MowerInactiveReason
        | Property::MowerState | Property::MowerErrorCode | Property::MowerWorkArea => Node::Mower,
        Property::PlannerNextStart | Property::PlannerOverride | Property::PlannerRestrictedReason
        | Property::PlannerExternalReason => Node::Planner,
        Property::SettingsCuttingHeight | Property::SettingsHeadlight => Node::Settings,
    }
}

/// The Homie id of a property within its node.
pub open spec fn property_text(property: Property) -> Seq<char> {
    match property {
        Property::BatteryLevel => seq!['l', 'e', 'v', 'e', 'l'],
        Property::PositionLatitudeLongitude => seq![
            'l', 'a', 't', 'i', 't', 'u', 'd', 'e', '-', 'l', 'o', 'n', 'g', 'i', 't', 'u', 'd', 'e',
        ],
        Property::MowerMode => seq!['m', 'o', 'd', 'e'],
        Property::MowerActivity => seq!['a', 'c', 't', 'i', 'v', 'i', 't', 'y'],
        Property::MowerInactiveReason => seq![
            'i', 'n', 'a', 'c', 't', 'i', 'v', 'e', '-', 'r', 'e', 'a', 's', 'o', 'n',
        ],
        Property::MowerState => seq!['s', 't', 'a', 't', 'e'],
        Property::MowerErrorCode => seq!['e', 'r', 'r', 'o', 'r', '-', 'c', 'o', 'd', 'e'],
        Property::MowerWorkArea => seq!['w', 'o', 'r', 'k', '-', 'a', 'r', 'e', 'a'],
        Property::PlannerNextStart => seq!['n', 'e', 'x', 't', '-', 's', 't', 'a', 'r', 't'],
        Property::PlannerOverride => seq![
            'o', 'v', 'e', 'r', 'r', 'i', 'd', 'e', '-', 'a', 'c', 't', 'i', 'o', 'n',
        ],
        Property::PlannerRestrictedReason => seq![
            'r', 'e', 's', 't', 'r', 'i', 'c', 't', 'e', 'd', '-', 'r', 'e', 'a', 's', 'o', 'n',
        ],
        Property::PlannerExternalReason => seq![
            'e', 'x', 't', 'e', 'r', 'n', 'a', 'l', '-', 'r', 'e', 'a', 's', 'o', 'n',
        ],
        Property::SettingsCuttingHeight => seq![
            'c', 'u', 't', 't', 'i', 'n', 'g', '-', 'h', 'e', 'i', 'g', 'h', 't',
        ],
        Property::SettingsHeadlight => seq![
            'h', 'e', 'a', 'd', 'l', 'i', 'g', 'h', 't', '-', 'm', 'o', 'd', 'e',
        ],
    }
}

impl Node {
    /// The node's Homie id.
    pub fn id(self) -> (id: &'static str)
        ensures
            id@ == node_text(self),
    {
        match self {
            Node::Battery => { proof { reveal_strlit("battery"); } "battery" },
            Node::Position => { proof { reveal_strlit("position"); } "position" },
            Node::Mower => { proof { reveal_strlit("mower"); } "mower" },
            Node::Planner => { proof { reveal_strlit("planner"); } "planner" },
            Node::Settings => { proof { reveal_strlit("settings"); } "settings" },
        }
    }
}

impl Property {
    /// The node the property belongs to.
    pub fn node(self) -> (node: Node)
        ensures
            node == property_node(self),
    {
        match self {
            Property::BatteryLevel => Node::Battery,
            Property::PositionLatitudeLongitude => Node::Position,
            Property::MowerMode | Property::MowerActivity | Property::MowerInactiveReason
            | Property::MowerState | Property::MowerErrorCode | Property::MowerWorkArea => Node::Mower,
            Property::PlannerNextStart | Property::PlannerOverride
            | Property::PlannerRestrictedReason | Property::PlannerExternalReason => Node::Planner,
            Property::SettingsCuttingHeight | Property::SettingsHeadlight => Node::Settings,
        }
    }

    /// The property's Homie id within its node.
    pub fn id(self) -> (id: &'static str)
        ensures
            id@ == property_text(self),
    {
        match self {
            Property::BatteryLevel => { proof { reveal_strlit("level"); } "level" },
            Property::PositionLatitudeLongitude => {
                proof { reveal_strlit("latitude-longitude"); }
                "latitude-longitude"
            },
            Property::MowerMode => { proof { reveal_strlit("mode"); } "mode" },
            Property::MowerActivity => { proof { reveal_strlit("activity"); } "activity" },
            Property::MowerInactiveReason => {
                proof { reveal_strlit("inactive-reason"); }
                "inactive-reason"
            },
            Property::MowerState => { proof { reveal_strlit("state"); } "state" },
            Property::MowerErrorCode => { proof { reveal_strlit("error-code"); } "error-code" },
            Property::MowerWorkArea => { proof { reveal_strlit("work-area"); } "work-area" },
            Property::PlannerNextStart => { proof { reveal_strlit("next-start"); } "next-start" },
            Property::PlannerOverride => {
                proof { reveal_strlit("override-action"); }
                "override-action"
            },
            Property::PlannerRestrictedReason => {
                proof { reveal_strlit("restricted-reason"); }
                "restricted-reason"
            },
            Property::PlannerExternalReason => {
                proof { reveal_strlit("external-reason"); }
                "external-reason"
            },
            Property::SettingsCuttingHeight => {
                proof { reveal_strlit("cutting-height"); }
                "cutting-height"
            },
            Property::SettingsHeadlight => {
                proof { reveal_strlit("headlight-mode"); }
                "headlight-mode"
            },
        }
    }
}

/// How a property is described: its datatype, unit, integer range and
/// whether its values are retained.
pub struct PropertyLayout {
    pub property: Property,
    pub datatype: DataType,
    pub unit: Option<&'static str>,
    pub range: Option<(i64, i64)>,
    pub retained: bool,
}

/// A node and its properties, in the order they are described.
pub struct NodeLayout {
    pub node: Node,
    pub properties: Vec<PropertyLayout>,
}

/// The abstract form of a property's layout.
pub struct PropertyShape {
    pub property: Property,
    pub datatype: DataType,
    pub unit: Option<Seq<char>>,
    pub range: Option<(int, int)>,
    pub retained: bool,
}

/// The abstract form of a node's layout.
pub struct NodeShape {
    pub node: Node,
    pub properties: Seq<PropertyShape>,
}

impl View for PropertyLayout {
    type V = PropertyShape;

    open spec fn view(&self) -> PropertyShape {
        PropertyShape {
            property: self.property,
            datatype: self.datatype,
            unit: match self.unit {
                Some(u) => Some(u@),
                None => None,
            },
            range: match self.range {
                Some((lo, hi)) => Some((lo as int, hi as int)),
                None => None,
            },
            retained: self.retained,
        }
    }
}

impl View for NodeLayout {
    type V = NodeShape;

    open spec fn view(&self) -> NodeShape {
        NodeShape { node: self.node, properties: self.properties@.map_values(|p: PropertyLayout| p@) }
    }
}

/// The abstract form of a whole layout.
pub open spec fn layout_view(layout: Seq<NodeLayout>) -> Seq<NodeShape> {
    layout.map_values(|n: NodeLayout| n@)
}

/// A retained property with the given datatype, unit and integer range.
pub open spec fn shape(
    property: Property,
    datatype: DataType,
    unit: Option<Seq<char>>,
    range: Option<(int, int)>,
) -> PropertyShape {
    PropertyShape { property, datatype, unit, range, retained: true }
}

/// The nodes and properties of a mower device: battery level in percent,
/// position, mower mode, activity, inactive reason, state, error code and work
/// area, planner override, next start, external and restricted reasons, and
/// headlight mode and cutting height. Every property is retained.
pub open spec fn spec_mower_layout() -> Seq<NodeShape> {
    seq![
        NodeShape {
            node: Node::Battery,
            properties: seq![
                shape(Property::BatteryLevel, DataType::Integer, Some(seq!['%']), Some((0, 100))),
            ],
        },
        NodeShape {
            node: Node::Position,
            properties: seq![shape(Property::PositionLatitudeLongitude, DataType::Text, None, None)],
        },
        NodeShape {
            node: Node::Mower,
            properties: seq![
                shape(Property::MowerMode, DataType::Enumeration, None, None),
                shape(Property::MowerActivity, DataType::Enumeration, None, None),
                shape(Property::MowerInactiveReason, DataType::Enumeration, None, None),
                shape(Property::MowerState, DataType::Enumeration, None, None),
                shape(Property::MowerErrorCode, DataType::Integer, None, Some((0, 724))),
                shape(Property::MowerWorkArea, DataType::Integer, None, None),
            ],
        },
        NodeShape {
            node: Node::Planner,
            properties: seq![
                shape(Property::PlannerOverride, DataType::Enumeration, None, None),
                shape(Property::PlannerNextStart, DataType::Datetime, None, None),
                shape(Property::PlannerExternalReason, DataType::Integer, None, Some((1000, 299999))),
                shape(Property::PlannerRestrictedReason, DataType::Enumeration, None, None),
            ],
        },
        NodeShape {
            node: Node::Settings,
            properties: seq![
                shape(Property::SettingsHeadlight, DataType::Enumeration, None, None),
                shape(Property::SettingsCuttingHeight, DataType::Integer, None, Some((0, 9))),
            ],
        },
    ]
}

/// Whether the first property with id `prop` in `properties` is retained.
pub open spec fn property_retained(properties: Seq<PropertyShape>, prop: Seq<char>) -> Option<bool>
    decreases properties.len(),
{
    if properties.len() == 0 {
        None
    } else if property_text(properties[0].property) == prop {
        Some(properties[0].retained)
    } else {
        property_retained(properties.drop_first(), prop)
    }
}

/// Whether property `prop` of the first node with id `node` is retained, or
/// `None` when the layout has no such node or the node no such property.
pub open spec fn layout_retained(layout: Seq<NodeShape>, node: Seq<char>, prop: Seq<char>) -> Option<bool>
    decreases layout.len(),
{
    if layout.len() == 0 {
        None
    } else if node_text(layout[0].node) == node {
        property_retained(layout[0].properties, prop)
    } else {
        layout_retained(layout.drop_first(), node, prop)
    }
}

fn make(property: Property, datatype: DataType, unit: Option<&'static str>, range: Option<(i64, i64)>) -> (p: PropertyLayout)
    ensures
        p.property == property,
        p.datatype == datatype,
        p.unit == unit,
        p.range == range,
        p.retained,
{
    PropertyLayout { property, datatype, unit, range, retained: true }
}

/// The layout of a mower device.
pub fn mower_layout() -> (layout: Vec<NodeLayout>)
    ensures
        layout_view(layout@) == spec_mower_layout(),
{
    proof { reveal_strlit("%"); }
    let battery = NodeLayout {
        node: Node::Battery,
        properties: vec![make(Property::BatteryLevel, DataType::Integer, Some("%"), Some((0, 100)))],
    };
    let position = NodeLayout {
        node: Node::Position,
        properties: vec![make(Property::PositionLatitudeLongitude, DataType::Text, None, None)],
    };
    let mower = NodeLayout {
        node: Node::Mower,
        properties: vec![
            make(Property::MowerMode, DataType::Enumeration, None, None),
            make(Property::MowerActivity, DataType::Enumeration, None, None),
            make(Property::MowerInactiveReason, DataType::Enumeration, None, None),
            make(Property::MowerState, DataType::Enumeration, None, None),
            make(Property::MowerErrorCode, DataType::Integer, None, Some((0, 724))),
            make(Property::MowerWorkArea, DataType::Integer, None, None),
        ],
    };
    let planner = NodeLayout {
        node: Node::Planner,
        properties: vec![
            make(Property::PlannerOverride, DataType::Enumeration, None, None),
            make(Property::PlannerNextStart, DataType::Datetime, None, None),
            make(Property::PlannerExternalReason, DataType::Integer, None, Some((1000, 299999))),
            make(Property::PlannerRestrictedReason, DataType::Enumeration, None, None),
        ],
    };
    let settings = NodeLayout {
        node: Node::Settings,
        properties: vec![
            make(Property::SettingsHeadlight, DataType::Enumeration, None, None),
            make(Property::SettingsCuttingHeight, DataType::Integer, None, Some((0, 9))),
        ],
    };
    let layout = vec![battery, position, mower, planner, settings];
    assert(layout_view(layout@) =~= spec_mower_layout()) by {
        assert(battery.properties@.len() == 1);
        assert(battery.properties@[0]@.unit == Some(seq!['%']));
        assert(battery.properties@[0]@ == spec_mower_layout()[0].properties[0]);
        assert(layout@[0]@.properties =~= spec_mower_layout()[0].properties);
        assert(layout@[1]@.properties =~= spec_mower_layout()[1].properties);
        assert(layout@[2]@.properties =~= spec_mower_layout()[2].properties);
        assert(layout@[3]@.properties =~= spec_mower_layout()[3].properties);
        assert(layout@[4]@.properties =~= spec_mower_layout()[4].properties);
    }
    layout
}

/// Whether two texts are the same.
pub fn same_text(a: &str, b: &str) -> (same: bool)
    ensures
        same == (a@ == b@),
{
    a.to_string() == b.to_string()
}

fn properties_retained(properties: &Vec<PropertyLayout>, prop_id: &str) -> (r: Option<bool>)
    ensures
        r == property_retained(properties@.map_values(|p: PropertyLayout| p@), prop_id@),
{
    let ghost all = properties@.map_values(|p: PropertyLayout| p@);
    let mut i: usize = 0;
    assert(all.skip(0) =~= all);
    while i < properties.len()
        invariant
            i <= properties.len(),
            all == properties@.map_values(|p: PropertyLayout| p@),
            property_retained(all, prop_id@) == property_retained(all.skip(i as int), prop_id@),
        decreases properties.len() - i,
    {
        assert(all.skip(i as int).drop_first() =~= all.skip(i + 1));
        if same_text(properties[i].property.id(), prop_id) {
            return Some(properties[i].retained);
        }
        i = i + 1;
    }
    None
}

/// Whether property `prop_id` of node `node_id` is retained in `layout`.
/// Asking for a node or property that the layout does not have is refused.
pub fn is_retained(layout: &Vec<NodeLayout>, node_id: &str, prop_id: &str) -> (retained: bool)
    requires
        layout_retained(layout_view(layout@), node_id@, prop_id@) is Some,
    ensures
        Some(retained) == layout_retained(layout_view(layout@), node_id@, prop_id@),
{
    let ghost all = layout_view(layout@);
    let mut i: usize = 0;
    assert(all.skip(0) =~= all);
    while i < layout.len()
        invariant
            i <= layout.len(),
            all == layout_view(layout@),
            layout_retained(all, node_id@, prop_id@) == layout_retained(all.skip(i as int), node_id@, prop_id@),
            layout_retained(all, node_id@, prop_id@) is Some,
        decreases layout.len() - i,
    {
        assert(all.skip(i as int).drop_first() =~= all.skip(i + 1));
        if same_text(layout[i].node.id(), node_id) {
            let r = properties_retained(&layout[i].properties, prop_id);
            return r.unwrap();
        }
        i = i + 1;
    }
    assert(all.skip(i as int).len() == 0);
    false
}

/// Every property of a mower device is found in the mower layout, under its
/// node, and is retained.
pub proof fn lemma_every_property_retained(property: Property)
    ensures
        layout_retained(spec_mower_layout(), node_text(property_node(property)), property_text(property))
            == Some(true),
{
    reveal_with_fuel(layout_retained, 6);
    reveal_with_fuel(property_retained, 7);
    let l = spec_mower_layout();
    assert(l.drop_first() =~= seq![l[1], l[2], l[3], l[4]]);
    assert(l.drop_first().drop_first() =~= seq![l[2], l[3], l[4]]);
    assert(l.drop_first().drop_first().drop_first() =~= seq![l[3], l[4]]);
    assert(l.drop_first().drop_first().drop_first().drop_first() =~= seq![l[4]]);
    let m = l[2].properties;
    assert(m.drop_first() =~= seq![m[1], m[2], m[3], m[4], m[5]]);
    assert(m.drop_first().drop_first() =~= seq![m[2], m[3], m[4], m[5]]);
    assert(m.drop_first().drop_first().drop_first() =~= seq![m[3], m[4], m[5]]);
    assert(m.drop_first().drop_first().drop_first().drop_first() =~= seq![m[4], m[5]]);
    assert(m.drop_first().drop_first().drop_first().drop_first().drop_first() =~= seq![m[5]]);
    let p = l[3].properties;
    assert(p.drop_first() =~= seq![p[1], p[2], p[3]]);
    assert(p.drop_first().drop_first() =~= seq![p[2], p[3]]);
    assert(p.drop_first().drop_first().drop_first() =~= seq![p[3]]);
    let s = l[4].properties;
    assert(s.drop_first() =~= seq![s[1]]);
    assert(node_text(Node::Battery) != node_text(Node::Position));
}

/// The Homie ids under which a mower device publishes: the nodes `battery`,
/// `position`, `mower`, `planner` and `settings`, and their properties.
pub proof fn lemma_homie_ids()
    ensures
        node_text(Node::Battery) == "battery"@,
        node_text(Node::Position) == "position"@,
        node_text(Node::Mower) == "mower"@,
        node_text(Node::Planner) == "planner"@,
        node_text(Node::Settings) == "settings"@,
        property_text(Property::BatteryLevel) == "level"@,
        property_text(Property::PositionLatitudeLongitude) == "latitude-longitude"@,
        property_text(Property::MowerMode) == "mode"@,
        property_text(Property::MowerActivity) == "activity"@,
        property_text(Property::MowerInactiveReason) == "inactive-reason"@,
        property_text(Property::MowerState) == "state"@,
        property_text(Property::MowerErrorCode) == "error-code"@,
        property_text(Property::MowerWorkArea) == "work-area"@,
        property_text(Property::PlannerNextStart) == "next-start"@,
        property_text(Property::PlannerOverride) == "override-action"@,
        property_text(Property::PlannerRestrictedReason) == "restricted-reason"@,
        property_text(Property::PlannerExternalReason) == "external-reason"@,
        property_text(Property::SettingsCuttingHeight) == "cutting-height"@,
        property_text(Property::SettingsHeadlight) == "headlight-mode"@,
{
    reveal_strlit("battery");
    reveal_strlit("position");
    reveal_strlit("mower");
    reveal_strlit("planner");
    reveal_strlit("settings");
    reveal_strlit("level");
    reveal_strlit("latitude-longitude");
    reveal_strlit("mode");
    reveal_strlit("activity");
    reveal_strlit("inactive-reason");
    reveal_strlit("state");
    reveal_strlit("error-code");
    reveal_strlit("work-area");
    reveal_strlit("next-start");
    reveal_strlit("override-action");
    reveal_strlit("restricted-reason");
    reveal_strlit("external-reason");
    reveal_strlit("cutting-height");
    reveal_strlit("headlight-mode");
}

/// The ids of every node and property are valid Homie ids.
pub proof fn lemma_ids_valid(property: Property)
    ensures
        is_homie_id(node_text(property_node(property))),
        is_homie_id(property_text(property)),
{
    let n = node_text(property_node(property));
    let p = property_text(property);
    assert forall|k: int| 0 <= k < n.len() implies {
        let c = #[trigger] n[k];
        ('a' <= c <= 'z') || ('0' <= c <= '9') || c == '-'
    } by {}
    assert forall|k: int| 0 <= k < p.len() implies {
        let c = #[trigger] p[k];
        ('a' <= c <= 'z') || ('0' <= c <= '9') || c == '-'
    } by {}
}

} // verus!
