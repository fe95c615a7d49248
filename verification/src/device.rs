//! The Homie devices of the bridge: the root device, one child device per
//! mower, and the order in which a device is brought online.
use crate::api::{JsonApiData, MowerData};
use crate::clock::MAX_MOWER_MILLIS;
use crate::events::{event_id, Event};
use crate::homie::{
    child_protocol, description_message, DeviceProtocol, device_builder, device_builder_build, device_builder_child,
    device_builder_name, device_builder_node, device_builder_parent, device_builder_root,
    is_homie_id, node_builder, node_builder_build, node_builder_property, property_builder,
    property_builder_build, property_builder_range, property_builder_retained, property_builder_unit,
    publish_steps, root_protocol, spec_publish_steps, state_message, status_text,
    subscription_messages, to_homie_id, value_message, value_payload, DeviceStatus, MqttPublish,
    MqttSubscription, PublishStep, QoS, DeviceModel, NodeModel, PropertyModel, device_description_model,
    device_builder_model, node_builder_model, property_builder_model, none_settable, state_topic,
    description_json,
    description_topic, property_topic,
};
use crate::property::{
    is_retained, layout_retained, layout_view, lemma_every_property_retained, lemma_ids_valid,
    mower_layout, node_text, property_node, property_text, spec_mower_layout, Node, NodeLayout, NodeShape,
    Property, PropertyShape,
};
use crate::order::{lemma_text_lt_irreflexive, lemma_text_lt_total, lemma_text_lt_transitive, text_less, text_lt};
use crate::clock::{is_utc_timestamp_text, mower_datetime_text};
use crate::state::{planned_start,
    event_in_range, event_reads_clock, event_state, event_updates, refresh_updates, updates_view,
    MowerState, MowerStateView, PropertyUpdate,
};
use homie5::device_description::HomieDeviceDescription;
use homie5::Homie5ProtocolError;
use vstd::prelude::*;
use vstd::utf8::encode_utf8;

verus! {

broadcast use vstd::string::group_string_axioms;

/// The id of the child device of mower `api_id` under root device `root`:
/// the root's id, a hyphen, and the mower's API id.
pub open spec fn child_key(root: Seq<char>, api_id: Seq<char>) -> Seq<char> {
    root + seq!['-'] + api_id
}

/// What is done to bring a device online.
#[derive(Clone, Copy, Debug, PartialEq, Eq, Structural)]
pub enum DeviceAction {
    PublishState(DeviceStatus),
    PublishDescription,
    PublishValues,
    SubscribeProperties,
}

/// What a publishing step does for a mower device that starts in `status`:
/// it announces that state, publishes the description, and, unless the mower
/// is disconnected, publishes the values, subscribes and announces `ready`.
pub open spec fn mower_step_actions(step: PublishStep, status: DeviceStatus) -> Seq<DeviceAction> {
    match step {
        PublishStep::DeviceStateInit => seq![DeviceAction::PublishState(status)],
        PublishStep::DeviceDescription => seq![DeviceAction::PublishDescription],
        PublishStep::PropertyValues => if status == DeviceStatus::Disconnected {
            seq![]
        } else {
            seq![DeviceAction::PublishValues]
        },
        PublishStep::SubscribeProperties => if status == DeviceStatus::Disconnected {
            seq![]
        } else {
            seq![DeviceAction::SubscribeProperties]
        },
        PublishStep::DeviceStateReady => if status == DeviceStatus::Disconnected {
            seq![]
        } else {
            seq![DeviceAction::PublishState(DeviceStatus::Ready)]
        },
    }
}

/// What a publishing step does for the root device: it announces `init`,
/// publishes the description and announces `ready`; it has no values and no
/// subscriptions.
pub open spec fn root_step_actions(step: PublishStep) -> Seq<DeviceAction> {
    match step {
        PublishStep::DeviceStateInit => seq![DeviceAction::PublishState(DeviceStatus::Init)],
        PublishStep::DeviceDescription => seq![DeviceAction::PublishDescription],
        PublishStep::PropertyValues => seq![],
        PublishStep::SubscribeProperties => seq![],
        PublishStep::DeviceStateReady => seq![DeviceAction::PublishState(DeviceStatus::Ready)],
    }
}

/// The actions of a list of steps, for a mower device in `status` or for the
/// root device.
pub open spec fn plan_of(steps: Seq<PublishStep>, status: DeviceStatus, root: bool) -> Seq<DeviceAction>
    decreases steps.len(),
{
    if steps.len() == 0 {
        seq![]
    } else {
        plan_of(steps.drop_last(), status, root) + if root {
            root_step_actions(steps.last())
        } else {
            mower_step_actions(steps.last(), status)
        }
    }
}

/// How a mower device that starts in `status` is brought online.
pub open spec fn mower_plan(status: DeviceStatus) -> Seq<DeviceAction> {
    if status == DeviceStatus::Disconnected {
        seq![DeviceAction::PublishState(status), DeviceAction::PublishDescription]
    } else {
        seq![
            DeviceAction::PublishState(status),
            DeviceAction::PublishDescription,
            DeviceAction::PublishValues,
            DeviceAction::SubscribeProperties,
            DeviceAction::PublishState(DeviceStatus::Ready),
        ]
    }
}

/// How the root device is brought online.
pub open spec fn root_plan() -> Seq<DeviceAction> {
    seq![
        DeviceAction::PublishState(DeviceStatus::Init),
        DeviceAction::PublishDescription,
        DeviceAction::PublishState(DeviceStatus::Ready),
    ]
}

proof fn lemma_plans(status: DeviceStatus)
    ensures
        plan_of(spec_publish_steps(), status, false) == mower_plan(status),
        plan_of(spec_publish_steps(), status, true) == root_plan(),
{
    let s = spec_publish_steps();
    reveal_with_fuel(plan_of, 6);
    assert(s.drop_last() =~= seq![s[0], s[1], s[2], s[3]]);
    assert(s.drop_last().drop_last() =~= seq![s[0], s[1], s[2]]);
    assert(s.drop_last().drop_last().drop_last() =~= seq![s[0], s[1]]);
    assert(s.drop_last().drop_last().drop_last().drop_last() =~= seq![s[0]]);
    assert(s.drop_last().drop_last().drop_last().drop_last().drop_last() =~= Seq::<PublishStep>::empty());
    assert(plan_of(spec_publish_steps(), status, false) =~= mower_plan(status));
    assert(plan_of(spec_publish_steps(), status, true) =~= root_plan());
}

fn plan(status: DeviceStatus, root: bool) -> (actions: Vec<DeviceAction>)
    ensures
        actions@ == plan_of(spec_publish_steps(), status, root),
{
    let steps = publish_steps();
    let mut actions: Vec<DeviceAction> = Vec::new();
    let mut i: usize = 0;
    while i < steps.len()
        invariant
            i <= steps.len(),
            steps@ == spec_publish_steps(),
            actions@ == plan_of(steps@.take(i as int), status, root),
        decreases steps.len() - i,
    {
        assert(steps@.take(i + 1).drop_last() =~= steps@.take(i as int));
        let step = steps[i];
        if root {
            match step {
                PublishStep::DeviceStateInit => actions.push(DeviceAction::PublishState(DeviceStatus::Init)),
                PublishStep::DeviceDescription => actions.push(DeviceAction::PublishDescription),
                PublishStep::PropertyValues => {},
                PublishStep::SubscribeProperties => {},
                PublishStep::DeviceStateReady => actions.push(DeviceAction::PublishState(DeviceStatus::Ready)),
            }
        } else {
            let disconnected = status == DeviceStatus::Disconnected;
            match step {
                PublishStep::DeviceStateInit => actions.push(DeviceAction::PublishState(status)),
                PublishStep::DeviceDescription => actions.push(DeviceAction::PublishDescription),
                PublishStep::PropertyValues => if !disconnected {
                    actions.push(DeviceAction::PublishValues);
                },
                PublishStep::SubscribeProperties => if !disconnected {
                    actions.push(DeviceAction::SubscribeProperties);
                },
                PublishStep::DeviceStateReady => if !disconnected {
                    actions.push(DeviceAction::PublishState(DeviceStatus::Ready));
                },
            }
        }
        assert(actions@ =~= plan_of(steps@.take(i + 1), status, root));
        i = i + 1;
    }
    assert(steps@.take(steps.len() as int) =~= steps@);
    actions
}

/// The root device of the bridge, under which each mower is a child device.
pub struct RootDevice {
    id: String,
    protocol: DeviceProtocol,
}

impl View for RootDevice {
    type V = Seq<char>;

    /// The root device's id.
    closed spec fn view(&self) -> Seq<char> {
        self.id@
    }
}

impl RootDevice {
    #[verifier::type_invariant]
    spec fn valid(&self) -> bool {
        &&& is_homie_id(self.id@)
        &&& !self.protocol.is_child()
        &&& self.protocol.device_id() == self.id@
    }

    /// The root device with id `id`, with the last will that announces it as
    /// lost, or `None` when `id` is not a valid Homie id.
    pub fn new(id: String) -> (r: Option<(RootDevice, MqttPublish)>)
        ensures
            r is Some <==> is_homie_id(id@),
            r matches Some((device, last_will)) ==> {
                &&& device@ == id@
                &&& last_will.topic@ == state_topic(id@)
                &&& last_will.retain
                &&& last_will.qos == QoS::AtLeastOnce
                &&& last_will.payload@ == encode_utf8(status_text(DeviceStatus::Lost))
            },
    {
        match to_homie_id(id.clone()) {
            Ok(valid_id) => {
                let (protocol, last_will) = root_protocol(valid_id);
                Some((RootDevice { id, protocol }, last_will))
            },
            Err(_) => None,
        }
    }

    /// The root device's id.
    pub fn id(&self) -> (id: &String)
        ensures
            id@ == self@,
            is_homie_id(id@),
    {
        proof { use_type_invariant(self); }
        &self.id
    }

    /// How the root device is brought online: `init`, description, `ready`.
    pub fn publish_plan(&self) -> (actions: Vec<DeviceAction>)
        ensures
            actions@ == root_plan(),
    {
        proof { lemma_plans(DeviceStatus::Init); }
        plan(DeviceStatus::Init, true)
    }

    /// The message announcing the root device's state, on its `$state` topic.
    pub fn state_message(&self, status: DeviceStatus) -> (m: MqttPublish)
        ensures
            m.topic@ == state_topic(self@),
            m.retain,
            m.qos == QoS::ExactlyOnce,
            m.payload@ == encode_utf8(status_text(status)),
    {
        proof { use_type_invariant(self); }
        state_message(&self.protocol, status)
    }

    /// The description of the root device, named "Husqvarna Automowers",
    /// with the given child devices in order, and no root, parent or node.
    pub fn description(&self, children: &Vec<String>) -> (d: HomieDeviceDescription)
        requires
            forall|k: int| 0 <= k < children.len() ==> is_homie_id((#[trigger] children[k])@),
        ensures
            device_description_model(d) == root_description_model(children@.map_values(|c: String| c@)),
            device_description_model(d).name == Some("Husqvarna Automowers"@),
            device_description_model(d).children.len() == children.len(),
            forall|k: int| 0 <= k < children.len() ==> device_description_model(d).children[k] == (#[trigger] children[k])@,
            device_description_model(d).root is None,
            device_description_model(d).parent is None,
            device_description_model(d).nodes.dom().is_empty(),
    {
        let mut builder = device_builder();
        builder = device_builder_name(builder, "Husqvarna Automowers".to_string());
        assert(children@.take(0).map_values(|c: String| c@) =~= Seq::<Seq<char>>::empty());
        let mut i: usize = 0;
        while i < children.len()
            invariant
                i <= children.len(),
                forall|k: int| 0 <= k < children.len() ==> is_homie_id((#[trigger] children[k])@),
                device_builder_model(builder) == root_description_model(
                    children@.take(i as int).map_values(|c: String| c@),
                ),
            decreases children.len() - i,
        {
            let child = to_homie_id(children[i].clone()).unwrap();
            builder = device_builder_child(builder, child);
            assert(children@.take(i + 1).map_values(|c: String| c@) =~= children@.take(i as int).map_values(
                |c: String| c@,
            ).push(children@[i as int]@));
            i = i + 1;
        }
        assert(children@.take(i as int) =~= children@);
        device_builder_build(builder)
    }

    /// The message publishing a description of the root device on its
    /// `$description` topic, retained and sent exactly once. It is made
    /// exactly when the description names no root.
    pub fn description_message(&self, description: &HomieDeviceDescription) -> (r: Result<MqttPublish, Homie5ProtocolError>)
        ensures
            r is Ok <==> device_description_model(*description).root is None,
            r matches Ok(m) ==> {
                &&& m.topic@ == description_topic(self@)
                &&& m.payload@ == description_json(*description)
                &&& m.retain
                &&& m.qos == QoS::ExactlyOnce
            },
    {
        proof { use_type_invariant(self); }
        description_message(&self.protocol, description)
    }
}

/// The name of the root device.
pub open spec fn root_name() -> Seq<char> {
    "Husqvarna Automowers"@
}

/// The description of the root device with the given children.
pub open spec fn root_description_model(children: Seq<Seq<char>>) -> DeviceModel {
    DeviceModel { name: Some(root_name()), root: None, parent: None, children, nodes: Map::empty() }
}

/// How a property is described, given its layout; no property is settable.
pub open spec fn property_model(p: PropertyShape) -> PropertyModel {
    PropertyModel { datatype: p.datatype, unit: p.unit, range: p.range, settable: false, retained: p.retained }
}

/// The properties of a node, given their layouts, by id.
pub open spec fn node_properties(ps: Seq<PropertyShape>) -> Map<Seq<char>, PropertyModel>
    decreases ps.len(),
{
    if ps.len() == 0 {
        Map::empty()
    } else {
        node_properties(ps.drop_last()).insert(property_text(ps.last().property), property_model(ps.last()))
    }
}

/// The nodes of a layout, by id.
pub open spec fn layout_nodes(layout: Seq<NodeShape>) -> Map<Seq<char>, NodeModel>
    decreases layout.len(),
{
    if layout.len() == 0 {
        Map::empty()
    } else {
        layout_nodes(layout.drop_last()).insert(
            node_text(layout.last().node),
            NodeModel { properties: node_properties(layout.last().properties) },
        )
    }
}

/// The description of the device of a mower named `name` under the root
/// device `root`: that name, `root` as root and parent, no children, and the
/// nodes and properties of the mower layout.
pub open spec fn mower_device_model(name: Seq<char>, root: Seq<char>) -> DeviceModel {
    DeviceModel {
        name: Some(name),
        root: Some(root),
        parent: Some(root),
        children: Seq::empty(),
        nodes: layout_nodes(spec_mower_layout()),
    }
}

/// The description of a mower device has exactly the battery, position,
/// mower, planner and settings nodes, each with exactly its properties.
pub proof fn lemma_mower_nodes()
    ensures
        layout_nodes(spec_mower_layout()).dom() == set![
            node_text(Node::Battery),
            node_text(Node::Position),
            node_text(Node::Mower),
            node_text(Node::Planner),
            node_text(Node::Settings),
        ],
        layout_nodes(spec_mower_layout())[node_text(Node::Battery)].properties.dom() == set![
            property_text(Property::BatteryLevel),
        ],
        layout_nodes(spec_mower_layout())[node_text(Node::Position)].properties.dom() == set![
            property_text(Property::PositionLatitudeLongitude),
        ],
        layout_nodes(spec_mower_layout())[node_text(Node::Mower)].properties.dom() == set![
            property_text(Property::MowerMode),
            property_text(Property::MowerActivity),
            property_text(Property::MowerInactiveReason),
            property_text(Property::MowerState),
            property_text(Property::MowerErrorCode),
            property_text(Property::MowerWorkArea),
        ],
        layout_nodes(spec_mower_layout())[node_text(Node::Planner)].properties.dom() == set![
            property_text(Property::PlannerOverride),
            property_text(Property::PlannerNextStart),
            property_text(Property::PlannerExternalReason),
            property_text(Property::PlannerRestrictedReason),
        ],
        layout_nodes(spec_mower_layout())[node_text(Node::Settings)].properties.dom() == set![
            property_text(Property::SettingsHeadlight),
            property_text(Property::SettingsCuttingHeight),
        ],
{
    let l = spec_mower_layout();
    reveal_with_fuel(layout_nodes, 6);
    reveal_with_fuel(node_properties, 7);
    assert(l.drop_last() =~= seq![l[0], l[1], l[2], l[3]]);
    assert(l.drop_last().drop_last() =~= seq![l[0], l[1], l[2]]);
    assert(l.drop_last().drop_last().drop_last() =~= seq![l[0], l[1]]);
    assert(l.drop_last().drop_last().drop_last().drop_last() =~= seq![l[0]]);
    assert(l.drop_last().drop_last().drop_last().drop_last().drop_last() =~= Seq::<NodeShape>::empty());
    let m = l[2].properties;
    assert(m.drop_last() =~= seq![m[0], m[1], m[2], m[3], m[4]]);
    assert(m.drop_last().drop_last() =~= seq![m[0], m[1], m[2], m[3]]);
    assert(m.drop_last().drop_last().drop_last() =~= seq![m[0], m[1], m[2]]);
    assert(m.drop_last().drop_last().drop_last().drop_last() =~= seq![m[0], m[1]]);
    assert(m.drop_last().drop_last().drop_last().drop_last().drop_last() =~= seq![m[0]]);
    assert(m.drop_last().drop_last().drop_last().drop_last().drop_last().drop_last() =~= Seq::<PropertyShape>::empty());
    let p = l[3].properties;
    assert(p.drop_last() =~= seq![p[0], p[1], p[2]]);
    assert(p.drop_last().drop_last() =~= seq![p[0], p[1]]);
    assert(p.drop_last().drop_last().drop_last() =~= seq![p[0]]);
    assert(p.drop_last().drop_last().drop_last().drop_last() =~= Seq::<PropertyShape>::empty());
    let t = l[4].properties;
    assert(t.drop_last() =~= seq![t[0]]);
    assert(t.drop_last().drop_last() =~= Seq::<PropertyShape>::empty());
    let b = l[0].properties;
    assert(b.drop_last() =~= Seq::<PropertyShape>::empty());
    let q = l[1].properties;
    assert(q.drop_last() =~= Seq::<PropertyShape>::empty());
    let nodes = layout_nodes(l);
    assert(nodes.dom() =~= set![
        node_text(Node::Battery),
        node_text(Node::Position),
        node_text(Node::Mower),
        node_text(Node::Planner),
        node_text(Node::Settings),
    ]);
    assert(node_text(Node::Battery) != node_text(Node::Position));
    assert(node_text(Node::Mower) != node_text(Node::Planner));
    assert(nodes[node_text(Node::Battery)].properties.dom() =~= set![property_text(Property::BatteryLevel)]);
    assert(nodes[node_text(Node::Position)].properties.dom() =~= set![
        property_text(Property::PositionLatitudeLongitude),
    ]);
    assert(nodes[node_text(Node::Mower)].properties.dom() =~= set![
        property_text(Property::MowerMode),
        property_text(Property::MowerActivity),
        property_text(Property::MowerInactiveReason),
        property_text(Property::MowerState),
        property_text(Property::MowerErrorCode),
        property_text(Property::MowerWorkArea),
    ]);
    assert(nodes[node_text(Node::Planner)].properties.dom() =~= set![
        property_text(Property::PlannerOverride),
        property_text(Property::PlannerNextStart),
        property_text(Property::PlannerExternalReason),
        property_text(Property::PlannerRestrictedReason),
    ]);
    assert(nodes[node_text(Node::Settings)].properties.dom() =~= set![
        property_text(Property::SettingsHeadlight),
        property_text(Property::SettingsCuttingHeight),
    ]);
}

/// Every property of a mower device is in its description, under its node,
/// and is retained.
pub proof fn lemma_property_described(property: Property)
    ensures
        layout_nodes(spec_mower_layout()).dom().contains(node_text(property_node(property))),
        layout_nodes(spec_mower_layout())[node_text(property_node(property))].properties.dom().contains(
            property_text(property),
        ),
        layout_nodes(spec_mower_layout())[node_text(property_node(property))].properties[property_text(
            property,
        )].retained,
{
    lemma_mower_nodes();
    lemma_every_property_retained(property);
    lemma_layout_retained_agrees(node_text(property_node(property)), property_text(property));
}

proof fn lemma_properties_retained(ps: Seq<PropertyShape>)
    requires
        forall|i: int| 0 <= i < ps.len() ==> (#[trigger] ps[i]).retained,
    ensures
        forall|p: Seq<char>| #[trigger] node_properties(ps).dom().contains(p) ==> node_properties(ps)[p].retained,
    decreases ps.len(),
{
    if ps.len() > 0 {
        lemma_properties_retained(ps.drop_last());
    }
}

/// For a property that the mower description has, the layout says the same
/// as the description about whether it is retained: it is.
proof fn lemma_layout_retained_agrees(node: Seq<char>, property: Seq<char>)
    requires
        layout_nodes(spec_mower_layout()).dom().contains(node),
        layout_nodes(spec_mower_layout())[node].properties.dom().contains(property),
    ensures
        layout_retained(spec_mower_layout(), node, property) == Some(
            layout_nodes(spec_mower_layout())[node].properties[property].retained,
        ),
{
    let l = spec_mower_layout();
    lemma_mower_nodes();
    reveal_with_fuel(layout_nodes, 6);
    assert(l.drop_last() =~= seq![l[0], l[1], l[2], l[3]]);
    assert(l.drop_last().drop_last() =~= seq![l[0], l[1], l[2]]);
    assert(l.drop_last().drop_last().drop_last() =~= seq![l[0], l[1]]);
    assert(l.drop_last().drop_last().drop_last().drop_last() =~= seq![l[0]]);
    assert(l.drop_last().drop_last().drop_last().drop_last().drop_last() =~= Seq::<NodeShape>::empty());
    lemma_properties_retained(l[0].properties);
    lemma_properties_retained(l[1].properties);
    lemma_properties_retained(l[2].properties);
    lemma_properties_retained(l[3].properties);
    lemma_properties_retained(l[4].properties);
    lemma_every_property_retained(Property::BatteryLevel);
    lemma_every_property_retained(Property::PositionLatitudeLongitude);
    lemma_every_property_retained(Property::MowerMode);
    lemma_every_property_retained(Property::MowerActivity);
    lemma_every_property_retained(Property::MowerInactiveReason);
    lemma_every_property_retained(Property::MowerState);
    lemma_every_property_retained(Property::MowerErrorCode);
    lemma_every_property_retained(Property::MowerWorkArea);
    lemma_every_property_retained(Property::PlannerNextStart);
    lemma_every_property_retained(Property::PlannerOverride);
    lemma_every_property_retained(Property::PlannerRestrictedReason);
    lemma_every_property_retained(Property::PlannerExternalReason);
    lemma_every_property_retained(Property::SettingsCuttingHeight);
    lemma_every_property_retained(Property::SettingsHeadlight);
}

proof fn lemma_properties_not_settable(ps: Seq<PropertyShape>)
    ensures
        forall|p: Seq<char>| #[trigger] node_properties(ps).dom().contains(p) ==> !node_properties(ps)[p].settable,
    decreases ps.len(),
{
    if ps.len() > 0 {
        lemma_properties_not_settable(ps.drop_last());
    }
}

proof fn lemma_layout_none_settable(layout: Seq<NodeShape>)
    ensures
        forall|n: Seq<char>, p: Seq<char>|
            #![trigger layout_nodes(layout)[n].properties[p]]
            layout_nodes(layout).dom().contains(n) && layout_nodes(layout)[n].properties.dom().contains(p)
                ==> !layout_nodes(layout)[n].properties[p].settable,
    decreases layout.len(),
{
    if layout.len() > 0 {
        lemma_layout_none_settable(layout.drop_last());
        lemma_properties_not_settable(layout.last().properties);
    }
}

/// The abstract form of a mower device.
pub struct MowerView {
    pub key: Seq<char>,
    pub api_id: Seq<char>,
    pub name: Seq<char>,
    pub description: DeviceModel,
    pub state: MowerStateView,
}

/// The Homie child device of a mower.
struct MowerDevice {
    key: String,
    api_id: String,
    name: String,
    layout: Vec<NodeLayout>,
    protocol: DeviceProtocol,
    description: HomieDeviceDescription,
}

impl MowerDevice {
    #[verifier::type_invariant]
    spec fn valid(&self) -> bool {
        &&& is_homie_id(self.key@)
        &&& layout_view(self.layout@) == spec_mower_layout()
        &&& self.protocol.is_child()
        &&& self.protocol.device_id() == self.key@
        &&& device_description_model(self.description).nodes == layout_nodes(spec_mower_layout())
        &&& none_settable(device_description_model(self.description))
    }
}

/// A mower and the Homie child device that publishes it.
pub struct Mower {
    device: MowerDevice,
    state: MowerState,
}

impl View for Mower {
    type V = MowerView;

    closed spec fn view(&self) -> MowerView {
        MowerView {
            key: self.device.key@,
            api_id: self.device.api_id@,
            name: self.device.name@,
            description: device_description_model(self.device.description),
            state: self.state@,
        }
    }
}

impl Mower {
    /// The description that the mower device publishes.
    pub closed spec fn published_description(&self) -> HomieDeviceDescription {
        self.device.description
    }

    /// The id of the child device of mower `id` under `root`.
    pub fn id_to_key(id: &str, root: &RootDevice) -> (key: String)
        ensures
            key@ == child_key(root@, id@),
    {
        proof { reveal_strlit("-"); }
        let mut key = root.id().clone();
        key.append("-");
        key.append(id);
        key
    }

    /// The mower `api_id` as the list of mowers reports it, published as a
    /// child device of `root` named after the mower. The child's id must be
    /// a valid Homie id.
    pub fn new(api_id: String, data: &MowerData, root: &RootDevice) -> (mower: Mower)
        requires
            is_homie_id(child_key(root@, api_id@)),
        ensures
            mower@.key == child_key(root@, api_id@),
            mower@.api_id == api_id@,
            mower@.name == data.system.name@,
            mower@.description == mower_device_model(data.system.name@, root@),
            mower@.description.name == Some(data.system.name@),
            mower@.description.root == Some(root@),
            mower@.description.parent == Some(root@),
            mower@.description.children.len() == 0,
            mower@.state == crate::state::initial_state(data),
    {
        let key = Mower::id_to_key(api_id.as_str(), root);
        let child_id = to_homie_id(key.clone()).unwrap();
        let protocol = child_protocol(&root.protocol, child_id);
        let layout = mower_layout();
        let description = mower_description(data.system.name.clone(), root.id(), &layout);
        proof { lemma_layout_none_settable(spec_mower_layout()); }
        let device = MowerDevice { key, api_id, name: data.system.name.clone(), layout, protocol, description };
        Mower { device, state: MowerState::from_data(data) }
    }

    /// The id of the mower's child device.
    pub fn key(&self) -> (key: &String)
        ensures
            key@ == self@.key,
    {
        &self.device.key
    }

    /// The mower's API id.
    pub fn api_id(&self) -> (id: &String)
        ensures
            id@ == self@.api_id,
    {
        &self.device.api_id
    }

    /// What the bridge remembers of the mower.
    pub fn state(&self) -> (state: &MowerState)
        ensures
            state@ == self@.state,
    {
        &self.state
    }

    /// Whether property `prop_id` of node `node_id` of the mower device is
    /// retained, as its description says. Asking for a node or property that
    /// the description does not have is refused.
    pub fn is_retained(&self, node_id: &str, prop_id: &str) -> (retained: bool)
        requires
            self@.description.nodes.dom().contains(node_id@),
            self@.description.nodes[node_id@].properties.dom().contains(prop_id@),
        ensures
            retained == self@.description.nodes[node_id@].properties[prop_id@].retained,
    {
        proof {
            use_type_invariant(&self.device);
            lemma_layout_retained_agrees(node_id@, prop_id@);
        }
        is_retained(&self.device.layout, node_id, prop_id)
    }

    /// Applies an event to the mower, reading the clock only when the event
    /// publishes the current time, and returns the property values to publish.
    pub fn record_event(&mut self, event: &Event) -> (updates: Vec<PropertyUpdate>)
        requires
            event_in_range(event),
        ensures
            final(self)@ == (MowerView { state: event_state(old(self)@.state, event), ..old(self)@ }),
            exists|now: Seq<char>| updates_view(updates@) == event_updates(old(self)@.state, event, now),
            !event_reads_clock(event) ==> updates_view(updates@) == event_updates(
                old(self)@.state,
                event,
                Seq::empty(),
            ),
            event_reads_clock(event) ==> exists|now: Seq<char>|
                is_utc_timestamp_text(now) && updates_view(updates@) == event_updates(old(self)@.state, event, now),
            planned_start(event) matches Some(t) ==> {
                &&& updates.len() > 0
                &&& updates[0].property == Property::PlannerNextStart
                &&& t == 0 ==> is_utc_timestamp_text(updates[0].value@)
                &&& t != 0 ==> updates[0].value@ == mower_datetime_text(t as nat)
            },
    {
        self.state.record_event(event)
    }

    /// The values that bring the mower device's properties up to date: every
    /// remembered value, as `refresh_updates` lists them. The mower stays as
    /// it was. A planned start past 9999-12-31 cannot be displayed and is
    /// refused.
    pub fn refresh_updates(&mut self) -> (updates: Vec<PropertyUpdate>)
        requires
            old(self)@.state.planner_next_start <= MAX_MOWER_MILLIS,
        ensures
            final(self)@ == old(self)@,
            exists|now: Seq<char>| updates_view(updates@) == refresh_updates(old(self)@.state, now),
            old(self)@.state.planner_next_start != 0 ==> updates_view(updates@) == refresh_updates(
                old(self)@.state,
                Seq::empty(),
            ),
            old(self)@.state.planner_next_start == 0 ==> exists|now: Seq<char>|
                is_utc_timestamp_text(now) && updates_view(updates@) == refresh_updates(old(self)@.state, now),
            exists|k: int|
                0 <= k < updates.len() && updates[k].property == Property::PlannerNextStart && if old(
                    self,
                )@.state.planner_next_start == 0 {
                    is_utc_timestamp_text(updates[k].value@)
                } else {
                    updates[k].value@ == mower_datetime_text(old(self)@.state.planner_next_start as nat)
                },
    {
        self.state.refresh(&self.device.api_id)
    }

    /// The messages that publish property values of the mower device, in
    /// order: each on the topic of its property, retained, sent exactly once,
    /// and carrying its value.
    pub fn messages(&self, updates: &Vec<PropertyUpdate>) -> (messages: Vec<MqttPublish>)
        ensures
            messages.len() == updates.len(),
            forall|k: int|
                0 <= k < messages.len() ==> {
                    &&& (#[trigger] messages[k]).topic@ == property_topic(
                        self@.key,
                        node_text(property_node(updates[k].property)),
                        property_text(updates[k].property),
                    )
                    &&& messages[k].retain
                    &&& messages[k].qos == QoS::ExactlyOnce
                    &&& messages[k].payload@ == value_payload(updates[k].value@)
                },
    {
        proof { use_type_invariant(&self.device); }
        let mut messages: Vec<MqttPublish> = Vec::new();
        let mut i: usize = 0;
        while i < updates.len()
            invariant
                i <= updates.len(),
                messages.len() == i,
                forall|k: int|
                    0 <= k < i ==> {
                        &&& (#[trigger] messages[k]).topic@ == property_topic(
                            self@.key,
                            node_text(property_node(updates[k].property)),
                            property_text(updates[k].property),
                        )
                        &&& messages[k].retain
                        &&& messages[k].qos == QoS::ExactlyOnce
                        &&& messages[k].payload@ == value_payload(updates[k].value@)
                    },
                self.device.protocol.device_id() == self@.key,
                self@.description.nodes == layout_nodes(spec_mower_layout()),
            decreases updates.len() - i,
        {
            let property = updates[i].property;
            let node = property.node();
            proof {
                lemma_ids_valid(property);
                lemma_property_described(property);
            }
            let node_id = to_homie_id(node.id().to_string()).unwrap();
            let prop_id = to_homie_id(property.id().to_string()).unwrap();
            let retained = self.is_retained(node.id(), property.id());
            let m = value_message(&self.device.protocol, &node_id, &prop_id, updates[i].value.clone(), retained);
            messages.push(m);
            i = i + 1;
        }
        messages
    }

    /// How the mower device is brought online, given the state it starts in.
    pub fn publish_plan(&self) -> (actions: Vec<DeviceAction>)
        ensures
            actions@ == mower_plan(self@.state.homie_status),
    {
        proof { lemma_plans(self.state.homie_status); }
        plan(self.state.homie_status, false)
    }

    /// The message announcing the mower device's state, on its `$state`
    /// topic.
    pub fn state_message(&self, status: DeviceStatus) -> (m: MqttPublish)
        ensures
            m.topic@ == state_topic(self@.key),
            m.retain,
            m.qos == QoS::ExactlyOnce,
            m.payload@ == encode_utf8(status_text(status)),
    {
        proof { use_type_invariant(&self.device); }
        state_message(&self.device.protocol, status)
    }

    /// The message publishing the mower device's own description, whose
    /// contents are `self@.description`: it is always made, on the device's
    /// `$description` topic, carries that description as JSON, and is retained
    /// and sent exactly once.
    pub fn description_message(&self) -> (r: Result<MqttPublish, Homie5ProtocolError>)
        ensures
            device_description_model(self.published_description()) == self@.description,
            r is Ok,
            r matches Ok(m) ==> {
                &&& m.topic@ == description_topic(self@.key)
                &&& m.payload@ == description_json(self.published_description())
                &&& m.retain
                &&& m.qos == QoS::ExactlyOnce
            },
    {
        proof { use_type_invariant(&self.device); }
        description_message(&self.device.protocol, &self.device.description)
    }

    /// The subscriptions to the `/set` topics of the mower device's settable
    /// properties: none, since no property is settable.
    pub fn subscriptions(&self) -> (r: Result<Vec<MqttSubscription>, Homie5ProtocolError>)
        ensures
            r matches Ok(v) && v.len() == 0,
    {
        proof { use_type_invariant(&self.device); }
        subscription_messages(&self.device.protocol, &self.device.description)
    }
}

/// The mowers of the bridge, each under the id of its child device.
pub struct MowerRegistry {
    mowers: Vec<Mower>,
}

/// Whether some mower in `mowers` has child device id `key`.
pub open spec fn has_key(mowers: Seq<MowerView>, key: Seq<char>) -> bool {
    exists|i: int| 0 <= i < mowers.len() && (#[trigger] mowers[i]).key == key
}

/// Whether the mowers are in strictly ascending order of their child device
/// ids.
pub open spec fn keys_ascending(mowers: Seq<MowerView>) -> bool {
    forall|i: int, j: int| 0 <= i < j < mowers.len() ==> text_lt(#[trigger] mowers[i].key, #[trigger] mowers[j].key)
}

/// `mowers` with `mower` put before the first mower whose child device id
/// comes after its own.
pub open spec fn sorted_insert(mowers: Seq<MowerView>, mower: MowerView) -> Seq<MowerView>
    decreases mowers.len(),
{
    if mowers.len() == 0 {
        seq![mower]
    } else if text_lt(mower.key, mowers[0].key) {
        seq![mower] + mowers
    } else {
        seq![mowers[0]] + sorted_insert(mowers.drop_first(), mower)
    }
}

/// `mowers` with each of `added` put in its place, one after another.
pub open spec fn insert_all(mowers: Seq<MowerView>, added: Seq<MowerView>) -> Seq<MowerView>
    decreases added.len(),
{
    if added.len() == 0 {
        mowers
    } else {
        sorted_insert(insert_all(mowers, added.drop_last()), added.last())
    }
}

proof fn lemma_sorted_insert_at(s: Seq<MowerView>, m: MowerView, p: int)
    requires
        keys_ascending(s),
        0 <= p <= s.len(),
        forall|k: int| 0 <= k < p ==> text_lt(#[trigger] s[k].key, m.key),
        p < s.len() ==> text_lt(m.key, s[p].key),
    ensures
        sorted_insert(s, m) == s.insert(p, m),
    decreases s.len(),
{
    if s.len() == 0 {
        assert(s.insert(0, m) =~= seq![m]);
    } else if p == 0 {
        assert(s.insert(0, m) =~= seq![m] + s);
    } else {
        lemma_text_lt_total(s[0].key, m.key);
        let t = s.drop_first();
        assert forall|i: int, j: int| 0 <= i < j < t.len() implies text_lt(#[trigger] t[i].key, #[trigger] t[j].key) by {
            assert(t[i] == s[i + 1] && t[j] == s[j + 1]);
        }
        assert forall|k: int| 0 <= k < p - 1 implies text_lt(#[trigger] t[k].key, m.key) by {
            assert(t[k] == s[k + 1]);
        }
        lemma_sorted_insert_at(t, m, p - 1);
        assert(seq![s[0]] + t.insert(p - 1, m) =~= s.insert(p, m));
    }
}

proof fn lemma_insert_ascending(s: Seq<MowerView>, m: MowerView, p: int)
    requires
        keys_ascending(s),
        0 <= p <= s.len(),
        forall|k: int| 0 <= k < p ==> text_lt(#[trigger] s[k].key, m.key),
        p < s.len() ==> text_lt(m.key, s[p].key),
    ensures
        keys_ascending(s.insert(p, m)),
{
    let r = s.insert(p, m);
    assert forall|i: int, j: int| 0 <= i < j < r.len() implies text_lt(#[trigger] r[i].key, #[trigger] r[j].key) by {
        if j < p {
            assert(r[i] == s[i] && r[j] == s[j]);
        } else if j == p {
            assert(r[i] == s[i]);
        } else if i == p {
            assert(r[j] == s[j - 1]);
            if j - 1 > p {
                lemma_text_lt_transitive(m.key, s[p].key, s[j - 1].key);
            }
        } else if i < p {
            assert(r[i] == s[i] && r[j] == s[j - 1]);
        } else {
            assert(r[i] == s[i - 1] && r[j] == s[j - 1]);
        }
    }
}

proof fn lemma_sorted_insert_shape(s: Seq<MowerView>, m: MowerView) -> (p: int)
    ensures
        0 <= p <= s.len(),
        sorted_insert(s, m) == s.insert(p, m),
    decreases s.len(),
{
    if s.len() == 0 {
        assert(s.insert(0, m) =~= seq![m]);
        0
    } else if text_lt(m.key, s[0].key) {
        assert(s.insert(0, m) =~= seq![m] + s);
        0
    } else {
        let q = lemma_sorted_insert_shape(s.drop_first(), m);
        assert(seq![s[0]] + s.drop_first().insert(q, m) =~= s.insert(q + 1, m));
        q + 1
    }
}

proof fn lemma_has_key_insert(s: Seq<MowerView>, m: MowerView, p: int, key: Seq<char>)
    requires
        0 <= p <= s.len(),
    ensures
        has_key(s.insert(p, m), key) <==> (has_key(s, key) || m.key == key),
{
    let r = s.insert(p, m);
    assert(r[p] == m);
    if has_key(s, key) {
        let k = choose|k: int| 0 <= k < s.len() && (#[trigger] s[k]).key == key;
        if k < p {
            assert(r[k] == s[k]);
        } else {
            assert(r[k + 1] == s[k]);
        }
    }
    if has_key(r, key) && m.key != key {
        let k = choose|k: int| 0 <= k < r.len() && (#[trigger] r[k]).key == key;
        if k < p {
            assert(s[k] == r[k]);
        } else {
            assert(s[k - 1] == r[k]);
        }
    }
}

/// Adding mowers in order finds exactly the ids that were there and those of
/// the mowers added.
pub proof fn lemma_insert_all_keys(mowers: Seq<MowerView>, added: Seq<MowerView>, key: Seq<char>)
    ensures
        has_key(insert_all(mowers, added), key) <==> has_key(mowers + added, key),
    decreases added.len(),
{
    if added.len() == 0 {
        assert(mowers + added =~= mowers);
    } else {
        lemma_insert_all_keys(mowers, added.drop_last(), key);
        let before = insert_all(mowers, added.drop_last());
        let p = lemma_sorted_insert_shape(before, added.last());
        lemma_has_key_insert(before, added.last(), p, key);
        let t = mowers + added.drop_last();
        assert(mowers + added =~= t.insert(t.len() as int, added.last()));
        lemma_has_key_insert(t, added.last(), t.len() as int, key);
    }
}

/// Whether every mower's child device id is the id of `root`, a hyphen and
/// the mower's API id.
pub open spec fn keyed_under(mowers: Seq<MowerView>, root: Seq<char>) -> bool {
    forall|i: int| 0 <= i < mowers.len() ==> (#[trigger] mowers[i]).key == child_key(root, mowers[i].api_id)
}

/// The mowers made from a list of mowers under `root` are keyed under it.
pub proof fn lemma_api_mowers_keyed(root: Seq<char>, entries: Seq<JsonApiData>)
    ensures
        keyed_under(
            entries.filter(|e: JsonApiData| is_mower_entry(e)).map_values(|e: JsonApiData| entry_mower(root, e)),
            root,
        ),
{
}

/// Adding mowers keyed under `root` to mowers keyed under it keeps the whole
/// keyed under it.
pub proof fn lemma_insert_all_keyed(mowers: Seq<MowerView>, added: Seq<MowerView>, root: Seq<char>)
    requires
        keyed_under(mowers, root),
        keyed_under(added, root),
    ensures
        keyed_under(insert_all(mowers, added), root),
    decreases added.len(),
{
    if added.len() > 0 {
        let rest = added.drop_last();
        assert forall|i: int| 0 <= i < rest.len() implies (#[trigger] rest[i]).key == child_key(root, rest[i].api_id) by {
            assert(rest[i] == added[i]);
        }
        lemma_insert_all_keyed(mowers, rest, root);
        let before = insert_all(mowers, rest);
        let m = added.last();
        let p = lemma_sorted_insert_shape(before, m);
        let after = before.insert(p, m);
        assert forall|i: int| 0 <= i < after.len() implies (#[trigger] after[i]).key == child_key(root, after[i].api_id) by {
            if i < p {
                assert(after[i] == before[i]);
            } else if i > p {
                assert(after[i] == before[i - 1]);
            }
        }
    }
}

/// Recording an event changes a mower's state only, so the mowers stay keyed
/// under `root`.
pub proof fn lemma_update_state_keyed(mowers: Seq<MowerView>, root: Seq<char>, i: int, state: MowerStateView)
    requires
        keyed_under(mowers, root),
        0 <= i < mowers.len(),
    ensures
        keyed_under(mowers.update(i, MowerView { state, ..mowers[i] }), root),
{
    let after = mowers.update(i, MowerView { state, ..mowers[i] });
    assert forall|k: int| 0 <= k < after.len() implies (#[trigger] after[k]).key == child_key(root, after[k].api_id) by {
        if k != i {
            assert(after[k] == mowers[k]);
        }
    }
}

/// In mowers keyed under `root`, an event about the API id of any of them
/// finds a mower under the child device id that the event names.
pub proof fn lemma_keyed_lookup(mowers: Seq<MowerView>, root: Seq<char>, i: int)
    requires
        keyed_under(mowers, root),
        0 <= i < mowers.len(),
    ensures
        has_key(mowers, child_key(root, mowers[i].api_id)),
{
    assert(mowers[i].key == child_key(root, mowers[i].api_id));
}

/// Whether the mowers `added` can be added one after another to `mowers`:
/// no two of them share a child device id, and none has the id of a mower
/// already there.
pub open spec fn fresh_keys(mowers: Seq<MowerView>, added: Seq<MowerView>) -> bool {
    &&& forall|i: int| 0 <= i < added.len() ==> !has_key(mowers, (#[trigger] added[i]).key)
    &&& forall|i: int, j: int| 0 <= i < j < added.len() ==> (#[trigger] added[i]).key != (#[trigger] added[j]).key
}

proof fn lemma_not_fresh(start: Seq<MowerView>, added: Seq<MowerView>, i: int)
    requires
        0 <= i < added.len(),
        has_key(start + added.take(i), added[i].key),
    ensures
        !fresh_keys(start, added),
{
    let before = start + added.take(i);
    let k = choose|k: int| 0 <= k < before.len() && (#[trigger] before[k]).key == added[i].key;
    if k < start.len() {
        assert(before[k] == start[k]);
        assert(has_key(start, added[i].key));
    } else {
        let j = k - start.len();
        assert(before[k] == added[j]);
        assert(added[j].key == added[i].key);
    }
}

proof fn lemma_fresh_extend(start: Seq<MowerView>, added: Seq<MowerView>, i: int)
    requires
        0 <= i < added.len(),
        fresh_keys(start, added.take(i)),
    ensures
        !has_key(start + added.take(i), added[i].key) ==> fresh_keys(start, added.take(i + 1)),
{
    let before = start + added.take(i);
    if !has_key(before, added[i].key) {
        let next = added.take(i + 1);
        assert forall|a: int| 0 <= a < next.len() implies !has_key(start, (#[trigger] next[a]).key) by {
            if a < i {
                assert(next[a] == added.take(i)[a]);
            } else if has_key(start, next[a].key) {
                let k = choose|k: int| 0 <= k < start.len() && (#[trigger] start[k]).key == next[a].key;
                assert(before[k] == start[k]);
            }
        }
        assert forall|a: int, b: int| 0 <= a < b < next.len() implies (#[trigger] next[a]).key
            != (#[trigger] next[b]).key by {
            if b < i {
                assert(next[a] == added.take(i)[a]);
                assert(next[b] == added.take(i)[b]);
            } else {
                assert(before[start.len() + a] == added.take(i)[a]);
                assert(next[a] == added.take(i)[a]);
            }
        }
    }
}

impl View for MowerRegistry {
    type V = Seq<MowerView>;

    /// The mowers, in the order they were added.
    closed spec fn view(&self) -> Seq<MowerView> {
        self.mowers@.map_values(|m: Mower| m@)
    }
}

impl MowerRegistry {
    #[verifier::type_invariant]
    spec fn distinct(&self) -> bool {
        &&& forall|i: int, j: int|
            0 <= i < j < self.mowers.len() ==> (#[trigger] self.mowers@[i])@.key != (#[trigger] self.mowers@[j])@.key
        &&& keys_ascending(self@)
    }

    /// A registry with no mowers.
    pub fn new() -> (r: MowerRegistry)
        ensures
            r@ == Seq::<MowerView>::empty(),
    {
        let r = MowerRegistry { mowers: Vec::new() };
        assert(r@ =~= Seq::<MowerView>::empty());
        r
    }

    /// The number of mowers. They are kept in ascending order of their child
    /// device ids.
    pub fn len(&self) -> (n: usize)
        ensures
            n == self@.len(),
            keys_ascending(self@),
    {
        proof { use_type_invariant(self); }
        self.mowers.len()
    }

    /// The mower at position `index`.
    pub fn mower(&self, index: usize) -> (m: &Mower)
        requires
            index < self@.len(),
        ensures
            m@ == self@[index as int],
    {
        &self.mowers[index]
    }

    /// The position of the mower with child device id `key`, if there is one.
    pub fn position(&self, key: &String) -> (r: Option<usize>)
        ensures
            r is None <==> !has_key(self@, key@),
            r matches Some(i) ==> i < self@.len() && self@[i as int].key == key@,
    {
        let mut i: usize = 0;
        while i < self.mowers.len()
            invariant
                i <= self.mowers.len(),
                forall|k: int| 0 <= k < i ==> (#[trigger] self.mowers@[k])@.key != key@,
            decreases self.mowers.len() - i,
        {
            if self.mowers[i].key().eq(key) {
                assert(self@[i as int] == self.mowers@[i as int]@);
                return Some(i);
            }
            i = i + 1;
        }
        assert(!has_key(self@, key@)) by {
            if has_key(self@, key@) {
                let k = choose|k: int| 0 <= k < self@.len() && (#[trigger] self@[k]).key == key@;
                assert(self.mowers@[k]@.key == key@);
            }
        }
        None
    }

    /// Whether some mower has child device id `key`.
    pub fn contains_key(&self, key: &String) -> (r: bool)
        ensures
            r == has_key(self@, key@),
    {
        self.position(key).is_some()
    }

    /// The mower with child device id `key`, if there is one.
    pub fn get(&self, key: &String) -> (r: Option<&Mower>)
        ensures
            r is None <==> !has_key(self@, key@),
            r matches Some(m) ==> forall|i: int| 0 <= i < self@.len() && self@[i].key == key@ ==> m@ == self@[i],
    {
        proof { use_type_invariant(self); }
        match self.position(key) {
            Some(i) => {
                assert(self@[i as int] == self.mowers@[i as int]@);
                assert forall|j: int| 0 <= j < self@.len() && self@[j].key == key@ implies self.mowers@[i as int]@
                    == self@[j] by {
                    assert(self@[j] == self.mowers@[j]@);
                    if j < i {
                        assert(self.mowers@[j]@.key != self.mowers@[i as int]@.key);
                    } else if i < j {
                        assert(self.mowers@[i as int]@.key != self.mowers@[j]@.key);
                    }
                }
                Some(&self.mowers[i])
            },
            None => None,
        }
    }

    /// The child device ids of the mowers, in order.
    pub fn keys(&self) -> (keys: Vec<String>)
        ensures
            keys.len() == self@.len(),
            forall|k: int| 0 <= k < keys.len() ==> (#[trigger] keys[k])@ == self@[k].key,
    {
        let mut keys: Vec<String> = Vec::new();
        let mut i: usize = 0;
        while i < self.mowers.len()
            invariant
                i <= self.mowers.len(),
                keys.len() == i,
                forall|k: int| 0 <= k < i ==> (#[trigger] keys[k])@ == self.mowers@[k]@.key,
            decreases self.mowers.len() - i,
        {
            keys.push(self.mowers[i].key().clone());
            i = i + 1;
        }
        keys
    }

    /// Adds a mower in its place in ascending order of child device ids. A
    /// mower whose child device id is already taken is refused.
    pub fn insert(&mut self, mower: Mower)
        requires
            !has_key(old(self)@, mower@.key),
        ensures
            final(self)@ == sorted_insert(old(self)@, mower@),
    {
        proof { use_type_invariant(&*self); }
        let ghost before = self@;
        let mut p: usize = 0;
        while p < self.mowers.len() && !text_less(mower.key().as_str(), self.mowers[p].key().as_str())
            invariant
                p <= self.mowers.len(),
                self@ == before,
                before == old(self)@,
                !has_key(before, mower@.key),
                forall|k: int| 0 <= k < p ==> text_lt(#[trigger] before[k].key, mower@.key),
            decreases self.mowers.len() - p,
        {
            assert(before[p as int] == self.mowers@[p as int]@);
            assert(before[p as int].key != mower@.key);
            proof { lemma_text_lt_total(before[p as int].key, mower@.key); }
            p = p + 1;
        }
        assert(p < before.len() ==> before[p as int] == self.mowers@[p as int]@);
        proof {
            lemma_sorted_insert_at(before, mower@, p as int);
            lemma_insert_ascending(before, mower@, p as int);
        }
        let ghost m = mower@;
        let mut mowers = Vec::new();
        std::mem::swap(&mut mowers, &mut self.mowers);
        mowers.insert(p, mower);
        assert(mowers@.map_values(|x: Mower| x@) =~= before.insert(p as int, m));
        assert forall|i: int, j: int| 0 <= i < j < mowers.len() implies (#[trigger] mowers@[i])@.key
            != (#[trigger] mowers@[j])@.key by {
            assert(before.insert(p as int, m)[i] == mowers@[i]@);
            assert(before.insert(p as int, m)[j] == mowers@[j]@);
            if mowers@[i]@.key == mowers@[j]@.key {
                lemma_text_lt_irreflexive(mowers@[i]@.key);
            }
        }
        self.mowers = mowers;
    }

    /// Adds the mowers one after another, each in its place in ascending order
    /// of child device ids, and returns their child device ids in the order
    /// given.
    /// A mower whose id is already taken, by a mower that was there or by one
    /// added before it, is refused: the mowers before it stay added, and its
    /// id is returned as the error.
    pub fn register(&mut self, mowers: Vec<Mower>) -> (r: Result<Vec<String>, String>)
        ensures
            r is Ok <==> fresh_keys(old(self)@, mowers@.map_values(|m: Mower| m@)),
            r matches Ok(children) ==> {
                &&& final(self)@ == insert_all(old(self)@, mowers@.map_values(|m: Mower| m@))
                &&& children.len() == mowers.len()
                &&& forall|k: int| 0 <= k < children.len() ==> (#[trigger] children[k])@ == mowers[k]@.key
            },
            r matches Err(key) ==> exists|i: int|
                0 <= i < mowers.len() && {
                    &&& fresh_keys(old(self)@, mowers@.map_values(|m: Mower| m@).take(i))
                    &&& has_key(old(self)@ + mowers@.map_values(|m: Mower| m@).take(i), mowers@[i]@.key)
                    &&& key@ == mowers@[i]@.key
                    &&& final(self)@ == insert_all(old(self)@, mowers@.map_values(|m: Mower| m@).take(i))
                },
    {
        let ghost added = mowers@.map_values(|m: Mower| m@);
        let ghost mowers_in = mowers@;
        let ghost start = self@;
        let mut children: Vec<String> = Vec::new();
        assert(added.len() == mowers.len());
        let mut pending = mowers;
        let mut i: usize = 0;
        while pending.len() > 0
            invariant
                i + pending.len() == added.len(),
                forall|k: int| 0 <= k < pending.len() ==> (#[trigger] pending@[k])@ == added[i + k],
                fresh_keys(start, added.take(i as int)),
                self@ == insert_all(start, added.take(i as int)),
                children.len() == i,
                forall|k: int| 0 <= k < i ==> (#[trigger] children[k])@ == added[k].key,
                added == mowers_in.map_values(|m: Mower| m@),
                start == old(self)@,
                mowers_in == mowers@,
                added.len() <= usize::MAX,
            decreases pending.len(),
        {
            let mower = pending.remove(0);
            assert(mower@ == added[i as int]);
            let key = mower.key().clone();
            proof { lemma_insert_all_keys(start, added.take(i as int), key@); }
            if self.contains_key(&key) {
                proof {
                    lemma_not_fresh(start, added, i as int);
                    assert(mowers_in[i as int]@ == added[i as int]);
                }
                return Err(key);
            }
            proof { lemma_fresh_extend(start, added, i as int); }
            children.push(key);
            self.insert(mower);
            assert(added.take(i + 1).drop_last() =~= added.take(i as int));
            i = i + 1;
        }
        assert(added.take(i as int) =~= added);
        Ok(children)
    }

    /// Applies an event to the mower it is about, found under its child
    /// device id beneath `root`, and returns the position of that mower and the
    /// values to publish; `None`, with nothing changed, when no mower has that
    /// id. A planned start past 9999-12-31 for a known mower cannot be
    /// displayed and is refused.
    pub fn record_event(&mut self, root: &RootDevice, event: &Event) -> (r: Option<(usize, Vec<PropertyUpdate>)>)
        requires
            has_key(old(self)@, child_key(root@, event_id(event))) ==> event_in_range(event),
        ensures
            r is None <==> !has_key(old(self)@, child_key(root@, event_id(event))),
            r is None ==> final(self)@ == old(self)@,
            r matches Some((i, updates)) ==> {
                &&& i < old(self)@.len()
                &&& old(self)@[i as int].key == child_key(root@, event_id(event))
                &&& final(self)@ == old(self)@.update(
                    i as int,
                    MowerView { state: event_state(old(self)@[i as int].state, event), ..old(self)@[i as int] },
                )
                &&& exists|now: Seq<char>|
                    updates_view(updates@) == event_updates(old(self)@[i as int].state, event, now)
                &&& planned_start(event) is Some ==> {
                    &&& updates.len() > 0
                    &&& updates[0].property == Property::PlannerNextStart
                    &&& planned_start(event) == Some(0u64) ==> is_utc_timestamp_text(updates[0].value@)
                    &&& planned_start(event) != Some(0u64) ==> updates[0].value@ == mower_datetime_text(
                        planned_start(event)->0 as nat,
                    )
                }
            },
    {
        proof { use_type_invariant(&*self); }
        let key = Mower::id_to_key(event.id().as_str(), root);
        match self.position(&key) {
            None => None,
            Some(i) => {
                let mut mowers = Vec::new();
                std::mem::swap(&mut mowers, &mut self.mowers);
                let ghost before = mowers@;
                let mut mower = mowers.remove(i);
                let updates = mower.record_event(event);
                mowers.insert(i, mower);
                assert(mowers@ =~= before.update(i as int, mower));
                assert forall|a: int, b: int| 0 <= a < b < mowers.len() implies (#[trigger] mowers@[a])@.key
                    != (#[trigger] mowers@[b])@.key by {
                    assert(mowers@[a]@.key == before[a]@.key);
                    assert(mowers@[b]@.key == before[b]@.key);
                }
                let ghost after = mowers@.map_values(|x: Mower| x@);
                assert forall|a: int, b: int| 0 <= a < b < after.len() implies text_lt(
                    #[trigger] after[a].key,
                    #[trigger] after[b].key,
                ) by {
                    assert(after[a].key == before[a]@.key && after[b].key == before[b]@.key);
                    assert(old(self)@[a] == before[a]@ && old(self)@[b] == before[b]@);
                }
                self.mowers = mowers;
                assert(self@ =~= old(self)@.update(
                    i as int,
                    MowerView { state: event_state(old(self)@[i as int].state, event), ..old(self)@[i as int] },
                ));
                Some((i, updates))
            },
        }
    }

    /// Brings the values of the mower at position `index` up to date, as
    /// `Mower::refresh_updates` does; the registry stays as it was.
    pub fn refresh_updates(&mut self, index: usize) -> (updates: Vec<PropertyUpdate>)
        requires
            index < old(self)@.len(),
            old(self)@[index as int].state.planner_next_start <= MAX_MOWER_MILLIS,
        ensures
            final(self)@ == old(self)@,
            exists|now: Seq<char>| updates_view(updates@) == refresh_updates(old(self)@[index as int].state, now),
            old(self)@[index as int].state.planner_next_start != 0 ==> updates_view(updates@) == refresh_updates(
                old(self)@[index as int].state,
                Seq::empty(),
            ),
            old(self)@[index as int].state.planner_next_start == 0 ==> exists|now: Seq<char>|
                is_utc_timestamp_text(now) && updates_view(updates@) == refresh_updates(
                    old(self)@[index as int].state,
                    now,
                ),
            exists|k: int|
                0 <= k < updates.len() && updates[k].property == Property::PlannerNextStart && if old(
                    self,
                )@[index as int].state.planner_next_start == 0 {
                    is_utc_timestamp_text(updates[k].value@)
                } else {
                    updates[k].value@ == mower_datetime_text(old(self)@[index as int].state.planner_next_start as nat)
                },
    {
        proof { use_type_invariant(&*self); }
        let mut mowers = Vec::new();
        std::mem::swap(&mut mowers, &mut self.mowers);
        let ghost before = mowers@;
        let mut mower = mowers.remove(index);
        let updates = mower.refresh_updates();
        mowers.insert(index, mower);
        assert(mowers@.map_values(|m: Mower| m@) =~= before.map_values(|m: Mower| m@));
        assert forall|a: int, b: int| 0 <= a < b < mowers.len() implies (#[trigger] mowers@[a])@.key
            != (#[trigger] mowers@[b])@.key by {
            assert(mowers@[a]@ == before[a]@);
            assert(mowers@[b]@ == before[b]@);
        }
        self.mowers = mowers;
        updates
    }
}

/// The JSON:API type of a mower.
pub open spec fn mower_kind() -> Seq<char> {
    seq!['m', 'o', 'w', 'e', 'r']
}

/// Whether an entry of the list of mowers is a mower.
pub open spec fn is_mower_entry(entry: JsonApiData) -> bool {
    entry.kind@ == mower_kind()
}

/// The mower device that an entry of the list of mowers becomes under a root
/// device with id `root`.
pub open spec fn entry_mower(root: Seq<char>, entry: JsonApiData) -> MowerView {
    MowerView {
        key: child_key(root, entry.id@),
        api_id: entry.id@,
        name: entry.attributes.system.name@,
        description: mower_device_model(entry.attributes.system.name@, root),
        state: crate::state::initial_state(&entry.attributes),
    }
}

/// The mowers of a list of mowers, in order: one device under `root` for
/// each entry whose type is `mower`, the other entries being skipped. Each
/// mower's child device id must be a valid Homie id.
pub fn mowers_from_api(root: &RootDevice, entries: Vec<JsonApiData>) -> (mowers: Vec<Mower>)
    requires
        forall|k: int|
            0 <= k < entries.len() && is_mower_entry(#[trigger] entries[k]) ==> is_homie_id(
                child_key(root@, entries[k].id@),
            ),
    ensures
        mowers@.map_values(|m: Mower| m@) == entries@.filter(|e: JsonApiData| is_mower_entry(e)).map_values(
            |e: JsonApiData| entry_mower(root@, e),
        ),
{
    let ghost pred = |e: JsonApiData| is_mower_entry(e);
    let ghost f = |e: JsonApiData| entry_mower(root@, e);
    let mut mowers: Vec<Mower> = Vec::new();
    let mut i: usize = 0;
    while i < entries.len()
        invariant
            i <= entries.len(),
            forall|k: int|
                0 <= k < entries.len() && is_mower_entry(#[trigger] entries[k]) ==> is_homie_id(
                    child_key(root@, entries[k].id@),
                ),
            pred == (|e: JsonApiData| is_mower_entry(e)),
            f == (|e: JsonApiData| entry_mower(root@, e)),
            mowers@.map_values(|m: Mower| m@) == entries@.take(i as int).filter(pred).map_values(f),
        decreases entries.len() - i,
    {
        reveal_with_fuel(Seq::<_>::filter, 1);
        proof { reveal_strlit("mower"); }
        assert(entries@.take(i + 1).drop_last() =~= entries@.take(i as int));
        assert(entries@.take(i + 1).last() == entries@[i as int]);
        let entry = &entries[i];
        assert("mower"@ == mower_kind());
        if crate::property::same_text(entry.kind.as_str(), "mower") {
            let mower = Mower::new(entry.id.clone(), &entry.attributes, root);
            let ghost old_mowers = mowers@;
            mowers.push(mower);
            assert(pred(entries@[i as int]));
            assert(entries@.take(i + 1).filter(pred) == entries@.take(i as int).filter(pred).push(entries@[i as int]));
            assert(mowers@.last()@ == f(entries@[i as int]));
            assert(mowers@ == old_mowers.push(mowers@.last()));
            let ghost fl = entries@.take(i as int).filter(pred);
            assert(fl.push(entries@[i as int]).map_values(f) =~= fl.map_values(f).push(f(entries@[i as int])));
            assert(mowers@.map_values(|m: Mower| m@) =~= old_mowers.map_values(|m: Mower| m@).push(mowers@.last()@));
            assert(mowers@.map_values(|m: Mower| m@) =~= entries@.take(i + 1).filter(pred).map_values(f));
        } else {
            assert(!pred(entries@[i as int]));
            assert(entries@.take(i + 1).filter(pred) == entries@.take(i as int).filter(pred));
            assert(mowers@.map_values(|m: Mower| m@) =~= entries@.take(i + 1).filter(pred).map_values(f));
        }
        i = i + 1;
    }
    assert(entries@.take(entries.len() as int) =~= entries@);
    mowers
}

/// After a mower is added under a new child device id, exactly the ids that
/// were there and the new one are found, and every mower found under the new
/// id is the one added.
pub proof fn lemma_insert_then_lookup(before: Seq<MowerView>, mower: MowerView, key: Seq<char>)
    requires
        !has_key(before, mower.key),
    ensures
        has_key(sorted_insert(before, mower), key) <==> (has_key(before, key) || key == mower.key),
        forall|i: int|
            0 <= i < sorted_insert(before, mower).len() && (#[trigger] sorted_insert(before, mower)[i]).key
                == mower.key ==> sorted_insert(before, mower)[i] == mower,
{
    let p = lemma_sorted_insert_shape(before, mower);
    lemma_has_key_insert(before, mower, p, key);
    let after = before.insert(p, mower);
    assert forall|i: int| 0 <= i < after.len() && (#[trigger] after[i]).key == mower.key implies after[i] == mower by {
        if i < p {
            assert(after[i] == before[i]);
        } else if i > p {
            assert(after[i] == before[i - 1]);
        }
    }
}

/// Different mowers under one root device get different child device ids.
pub proof fn lemma_child_keys_distinct(root: Seq<char>, a: Seq<char>, b: Seq<char>)
    requires
        a != b,
    ensures
        child_key(root, a) != child_key(root, b),
{
    let p = root + seq!['-'];
    if child_key(root, a) == child_key(root, b) {
        assert((p + a).len() == (p + b).len());
        assert forall|k: int| 0 <= k < a.len() implies a[k] == b[k] by {
            assert((p + a)[p.len() + k] == a[k]);
            assert((p + b)[p.len() + k] == b[k]);
        }
        assert(a =~= b);
    }
}

fn mower_description(name: String, root_id: &String, layout: &Vec<NodeLayout>) -> (d: HomieDeviceDescription)
    requires
        is_homie_id(root_id@),
        layout_view(layout@) == spec_mower_layout(),
    ensures
        device_description_model(d) == mower_device_model(name@, root_id@),
        device_description_model(d).name == Some(name@),
        device_description_model(d).root == Some(root_id@),
        device_description_model(d).parent == Some(root_id@),
        device_description_model(d).children.len() == 0,
{
    let ghost shapes = layout_view(layout@);
    let ghost name_text = name@;
    let mut builder = device_builder();
    builder = device_builder_name(builder, name);
    builder = device_builder_root(builder, to_homie_id(root_id.clone()).unwrap());
    builder = device_builder_parent(builder, to_homie_id(root_id.clone()).unwrap());
    let mut i: usize = 0;
    while i < layout.len()
        invariant
            i <= layout.len(),
            shapes == layout_view(layout@),
            shapes == spec_mower_layout(),
            device_builder_model(builder) == (DeviceModel {
                name: Some(name_text),
                root: Some(root_id@),
                parent: Some(root_id@),
                children: Seq::empty(),
                nodes: layout_nodes(shapes.take(i as int)),
            }),
        decreases layout.len() - i,
    {
        let node_layout = &layout[i];
        let ghost props = shapes[i as int].properties;
        assert(props == node_layout.properties@.map_values(|p: crate::property::PropertyLayout| p@));
        let mut node = node_builder();
        let mut j: usize = 0;
        assert(props.take(0) =~= Seq::<PropertyShape>::empty());
        while j < node_layout.properties.len()
            invariant
                j <= node_layout.properties.len(),
                props == node_layout.properties@.map_values(|p: crate::property::PropertyLayout| p@),
                node_builder_model(node) == (NodeModel { properties: node_properties(props.take(j as int)) }),
            decreases node_layout.properties.len() - j,
        {
            let p = &node_layout.properties[j];
            assert(props[j as int] == p@);
            let mut property = property_builder(p.datatype);
            match p.unit {
                Some(unit) => { property = property_builder_unit(property, unit.to_string()); },
                None => {},
            }
            match p.range {
                Some((lo, hi)) => { property = property_builder_range(property, lo, hi); },
                None => {},
            }
            property = property_builder_retained(property, p.retained);
            assert(property_builder_model(property) == property_model(p@));
            proof { lemma_ids_valid(p.property); }
            let prop_id = to_homie_id(p.property.id().to_string()).unwrap();
            node = node_builder_property(node, prop_id, property_builder_build(property));
            assert(props.take(j + 1).drop_last() =~= props.take(j as int));
            j = j + 1;
        }
        assert(props.take(j as int) =~= props);
        proof { lemma_node_ids_valid(node_layout.node); }
        let node_id = to_homie_id(node_layout.node.id().to_string()).unwrap();
        builder = device_builder_node(builder, node_id, node_builder_build(node));
        assert(shapes.take(i + 1).drop_last() =~= shapes.take(i as int));
        assert(shapes.take(i + 1).last() == shapes[i as int]);
        i = i + 1;
    }
    assert(shapes.take(i as int) =~= shapes);
    device_builder_build(builder)
}

proof fn lemma_node_ids_valid(node: crate::property::Node)
    ensures
        is_homie_id(node_text(node)),
{
    match node {
        crate::property::Node::Battery => lemma_ids_valid(crate::property::Property::BatteryLevel),
        crate::property::Node::Position => lemma_ids_valid(crate::property::Property::PositionLatitudeLongitude),
        crate::property::Node::Mower => lemma_ids_valid(crate::property::Property::MowerMode),
        crate::property::Node::Planner => lemma_ids_valid(crate::property::Property::PlannerOverride),
        crate::property::Node::Settings => lemma_ids_valid(crate::property::Property::SettingsHeadlight),
    }
}

} // verus!
