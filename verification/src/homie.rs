//! The Homie v5 protocol as the `homie5` crate implements it: validated ids,
//! the messages a device publishes, its description, and the order of the
//! publishing steps.
use homie5::client::Publish;
use homie5::device_description::{
    DeviceDescriptionBuilder, HomieDeviceDescription, HomieNodeDescription,
    HomiePropertyDescription, NodeDescriptionBuilder, PropertyDescriptionBuilder,
};
use homie5::{Homie5DeviceProtocol, Homie5ProtocolError, HomieID, InvalidHomieIDError};
use vstd::prelude::*;
use vstd::utf8::encode_utf8;

verus! {

#[verifier::external_type_specification]
#[verifier::external_body]
pub struct ExHomieID(HomieID);

#[verifier::external_type_specification]
#[verifier::external_body]
pub struct ExInvalidHomieIDError(InvalidHomieIDError);

#[verifier::external_type_specification]
#[verifier::external_body]
pub struct ExHomie5DeviceProtocol(Homie5DeviceProtocol);

#[verifier::external_type_specification]
#[verifier::external_body]
pub struct ExHomie5ProtocolError(Homie5ProtocolError);

#[verifier::external_type_specification]
#[verifier::external_body]
pub struct ExHomieDeviceDescription(HomieDeviceDescription);

#[verifier::external_type_specification]
#[verifier::external_body]
pub struct ExHomieNodeDescription(HomieNodeDescription);

#[verifier::external_type_specification]
#[verifier::external_body]
pub struct ExHomiePropertyDescription(HomiePropertyDescription);

#[verifier::external_type_specification]
#[verifier::external_body]
pub struct ExDeviceDescriptionBuilder(DeviceDescriptionBuilder);

#[verifier::external_type_specification]
#[verifier::external_body]
pub struct ExNodeDescriptionBuilder(NodeDescriptionBuilder);

#[verifier::external_type_specification]
#[verifier::external_body]
pub struct ExPropertyDescriptionBuilder(PropertyDescriptionBuilder);

/// The delivery guarantee of an MQTT message.
#[derive(Clone, Copy, Debug, PartialEq, Eq, Structural)]
pub enum QoS {
    AtMostOnce,
    AtLeastOnce,
    ExactlyOnce,
}

/// A message to publish on the MQTT broker.
pub struct MqttPublish {
    pub topic: String,
    pub retain: bool,
    pub payload: Vec<u8>,
    pub qos: QoS,
}

/// A subscription to request from the MQTT broker.
pub struct MqttSubscription {
    pub topic: String,
    pub qos: QoS,
}

/// The state a Homie device announces.
#[derive(Clone, Copy, Debug, PartialEq, Eq, Structural)]
pub enum DeviceStatus {
    Init,
    Ready,
    Disconnected,
    Sleeping,
    Lost,
}

/// The steps of bringing a Homie device online.
#[derive(Clone, Copy, Debug, PartialEq, Eq, Structural)]
pub enum PublishStep {
    DeviceStateInit,
    DeviceDescription,
    PropertyValues,
    SubscribeProperties,
    DeviceStateReady,
}

/// The Homie datatypes that this bridge's properties use.
#[derive(Clone, Copy, Debug, PartialEq, Eq, Structural)]
pub enum DataType {
    Integer,
    Text,
    Enumeration,
    Datetime,
}

/// A valid Homie id together with its text. Only `to_homie_id` makes one.
pub struct ValidId {
    id: HomieID,
    text: String,
}

impl View for ValidId {
    type V = Seq<char>;

    /// The id's text.
    closed spec fn view(&self) -> Seq<char> {
        self.text@
    }
}

/// The protocol of a Homie device in the default Homie domain, with the id of
/// the device and whether it is a child device. Only `root_protocol` and
/// `child_protocol` make one; they record the id they were given and which of
/// the two made it.
pub struct DeviceProtocol {
    inner: Homie5DeviceProtocol,
    id: String,
    child: bool,
}

impl DeviceProtocol {
    /// Whether the protocol is that of a child device.
    pub closed spec fn is_child(&self) -> bool {
        self.child
    }

    /// The id of the device.
    pub closed spec fn device_id(&self) -> Seq<char> {
        self.id@
    }
}

/// The topic under which device `device` publishes: `homie/5/` and its id.
pub open spec fn device_topic(device: Seq<char>) -> Seq<char> {
    seq!['h', 'o', 'm', 'i', 'e', '/', '5', '/'] + device
}

/// The topic of a device's state.
pub open spec fn state_topic(device: Seq<char>) -> Seq<char> {
    device_topic(device) + seq!['/', '$', 's', 't', 'a', 't', 'e']
}

/// The topic of a device's description.
pub open spec fn description_topic(device: Seq<char>) -> Seq<char> {
    device_topic(device) + seq!['/', '$', 'd', 'e', 's', 'c', 'r', 'i', 'p', 't', 'i', 'o', 'n']
}

/// The topic of property `property` of node `node` of device `device`.
pub open spec fn property_topic(device: Seq<char>, node: Seq<char>, property: Seq<char>) -> Seq<char> {
    device_topic(device) + seq!['/'] + node + seq!['/'] + property
}

/// What a property description says: datatype, unit, integer range, and
/// whether the property is settable and retained.
pub struct PropertyModel {
    pub datatype: DataType,
    pub unit: Option<Seq<char>>,
    pub range: Option<(int, int)>,
    pub settable: bool,
    pub retained: bool,
}

/// What a node description says: its properties by id.
pub struct NodeModel {
    pub properties: Map<Seq<char>, PropertyModel>,
}

/// What a device description says: its name, root and parent, its children
/// in order, and its nodes by id.
pub struct DeviceModel {
    pub name: Option<Seq<char>>,
    pub root: Option<Seq<char>>,
    pub parent: Option<Seq<char>>,
    pub children: Seq<Seq<char>>,
    pub nodes: Map<Seq<char>, NodeModel>,
}

/// What a device description builder holds so far.
pub uninterp spec fn device_builder_model(builder: DeviceDescriptionBuilder) -> DeviceModel;

/// What a device description holds.
pub uninterp spec fn device_description_model(description: HomieDeviceDescription) -> DeviceModel;

/// The JSON text of a device description, as UTF-8 bytes, as `serde_json`
/// writes it: every field of the description, maps in the order of their
/// keys and lists in their order, so equal descriptions give equal text.
pub uninterp spec fn description_json(description: HomieDeviceDescription) -> Seq<u8>;

/// What a node description builder holds so far.
pub uninterp spec fn node_builder_model(builder: NodeDescriptionBuilder) -> NodeModel;

/// What a node description holds.
pub uninterp spec fn node_description_model(description: HomieNodeDescription) -> NodeModel;

/// What a property description builder holds so far.
pub uninterp spec fn property_builder_model(builder: PropertyDescriptionBuilder) -> PropertyModel;

/// What a property description holds.
pub uninterp spec fn property_description_model(description: HomiePropertyDescription) -> PropertyModel;

/// Whether no property of the device is settable.
pub open spec fn none_settable(model: DeviceModel) -> bool {
    forall|node: Seq<char>, property: Seq<char>|
        #![trigger model.nodes[node].properties[property]]
        model.nodes.dom().contains(node) && model.nodes[node].properties.dom().contains(property)
            ==> !model.nodes[node].properties[property].settable
}

/// A valid Homie id: not empty, and made of lowercase letters `a`-`z`,
/// digits and hyphens only.
pub open spec fn is_homie_id(id: Seq<char>) -> bool {
    &&& id.len() > 0
    &&& forall|k: int|
        0 <= k < id.len() ==> {
            let c = #[trigger] id[k];
            ('a' <= c <= 'z') || ('0' <= c <= '9') || c == '-'
        }
}

/// The text of a device state, as Homie publishes it.
pub open spec fn status_text(status: DeviceStatus) -> Seq<char> {
    match status {
        DeviceStatus::Init => seq!['i', 'n', 'i', 't'],
        DeviceStatus::Ready => seq!['r', 'e', 'a', 'd', 'y'],
        DeviceStatus::Disconnected => seq![
            'd',
            'i',
            's',
            'c',
            'o',
            'n',
            'n',
            'e',
            'c',
            't',
            'e',
            'd',
        ],
        DeviceStatus::Sleeping => seq!['s', 'l', 'e', 'e', 'p', 'i', 'n', 'g'],
        DeviceStatus::Lost => seq!['l', 'o', 's', 't'],
    }
}

/// The payload that carries a property value: the value's UTF-8 bytes, or a
/// single zero byte for the empty value.
pub open spec fn value_payload(value: Seq<char>) -> Seq<u8> {
    if value.len() == 0 {
        seq![0u8]
    } else {
        encode_utf8(value)
    }
}

/// The order in which a Homie device is brought online.
pub open spec fn spec_publish_steps() -> Seq<PublishStep> {
    seq![
        PublishStep::DeviceStateInit,
        PublishStep::DeviceDescription,
        PublishStep::PropertyValues,
        PublishStep::SubscribeProperties,
        PublishStep::DeviceStateReady,
    ]
}

/// Calls `HomieID::try_from(String)`, which accepts exactly the non-empty
/// ids made of `a`-`z`, `0`-`9` and `-`, and keeps the text it was given.
#[verifier::external_body]
pub(crate) fn to_homie_id(id: String) -> (r: Result<ValidId, InvalidHomieIDError>)
    ensures
        r is Ok <==> is_homie_id(id@),
        r matches Ok(v) ==> v@ == id@,
{
    match HomieID::try_from(id.clone()) {
        Ok(homie_id) => Ok(ValidId { id: homie_id, text: id }),
        Err(e) => Err(e),
    }
}

/// Calls `Homie5DeviceProtocol::new` in the default Homie domain and hands
/// back the protocol of the device `id`, which is not a child's, with its last
/// will: a retained message carrying `lost` on the device's `$state` topic,
/// sent at least once.
#[verifier::external_body]
pub(crate) fn root_protocol(id: ValidId) -> (r: (DeviceProtocol, MqttPublish))
    ensures
        !r.0.is_child(),
        r.0.device_id() == id@,
        r.1.topic@ == state_topic(id@),
        r.1.retain,
        r.1.qos == QoS::AtLeastOnce,
        r.1.payload@ == encode_utf8(status_text(DeviceStatus::Lost)),
{
    let (protocol, lw) = Homie5DeviceProtocol::new(id.id, homie5::HomieDomain::Default);
    let qos = match lw.qos {
        homie5::client::QoS::AtMostOnce => QoS::AtMostOnce,
        homie5::client::QoS::AtLeastOnce => QoS::AtLeastOnce,
        homie5::client::QoS::ExactlyOnce => QoS::ExactlyOnce,
    };
    (
        DeviceProtocol { inner: protocol, id: id.text, child: false },
        MqttPublish { topic: lw.topic, retain: lw.retain, payload: lw.message, qos },
    )
}

/// Calls `Homie5DeviceProtocol::clone_for_child`: the protocol of the child
/// device `id`, in the parent's domain, which `homie5` marks as a child's.
#[verifier::external_body]
pub(crate) fn child_protocol(parent: &DeviceProtocol, id: ValidId) -> (r: DeviceProtocol)
    ensures
        r.is_child(),
        r.device_id() == id@,
{
    DeviceProtocol { inner: parent.inner.clone_for_child(id.id), id: id.text, child: true }
}

/// Calls `Homie5DeviceProtocol::publish_state`: a retained message carrying
/// the state's text, sent exactly once, on the device's `$state` topic.
#[verifier::external_body]
pub(crate) fn state_message(protocol: &DeviceProtocol, status: DeviceStatus) -> (m: MqttPublish)
    ensures
        m.topic@ == state_topic(protocol.device_id()),
        m.retain,
        m.qos == QoS::ExactlyOnce,
        m.payload@ == encode_utf8(status_text(status)),
{
    let p = protocol.inner.publish_state(match status {
        DeviceStatus::Init => homie5::HomieDeviceStatus::Init,
        DeviceStatus::Ready => homie5::HomieDeviceStatus::Ready,
        DeviceStatus::Disconnected => homie5::HomieDeviceStatus::Disconnected,
        DeviceStatus::Sleeping => homie5::HomieDeviceStatus::Sleeping,
        DeviceStatus::Lost => homie5::HomieDeviceStatus::Lost,
    });
    MqttPublish { topic: p.topic, retain: p.retain, payload: p.payload, qos: match p.qos {
        homie5::client::QoS::AtMostOnce => QoS::AtMostOnce,
        homie5::client::QoS::AtLeastOnce => QoS::AtLeastOnce,
        homie5::client::QoS::ExactlyOnce => QoS::ExactlyOnce,
    } }
}

/// Calls `Homie5DeviceProtocol::publish_value`: a message on the topic of
/// the property of the node of the device, sent exactly once, retained as
/// asked, whose payload is the value's UTF-8 bytes or a single zero byte for
/// the empty value.
#[verifier::external_body]
pub(crate) fn value_message(
    protocol: &DeviceProtocol,
    node_id: &ValidId,
    prop_id: &ValidId,
    value: String,
    retained: bool,
) -> (m: MqttPublish)
    ensures
        m.topic@ == property_topic(protocol.device_id(), node_id@, prop_id@),
        m.retain == retained,
        m.qos == QoS::ExactlyOnce,
        m.payload@ == value_payload(value@),
{
    let p = protocol.inner.publish_value(&node_id.id, &prop_id.id, value, retained);
    MqttPublish { topic: p.topic, retain: p.retain, payload: p.payload, qos: match p.qos {
        homie5::client::QoS::AtMostOnce => QoS::AtMostOnce,
        homie5::client::QoS::AtLeastOnce => QoS::AtLeastOnce,
        homie5::client::QoS::ExactlyOnce => QoS::ExactlyOnce,
    } }
}

/// Calls `Homie5DeviceProtocol::publish_description`. For a child device it
/// succeeds; for the root device it fails exactly when the description names
/// a root (`homie5` checks the root only for a device that is not a child,
/// and the description always encodes as JSON, its map keys being Homie ids,
/// which are strings). The message goes to the device's `$description` topic,
/// retained and sent exactly once, and carries the description as JSON.
#[verifier::external_body]
pub(crate) fn description_message(
    protocol: &DeviceProtocol,
    description: &HomieDeviceDescription,
) -> (r: Result<MqttPublish, Homie5ProtocolError>)
    ensures
        protocol.is_child() ==> r is Ok,
        !protocol.is_child() ==> (r is Ok <==> device_description_model(*description).root is None),
        r matches Ok(m) ==> {
            &&& m.topic@ == description_topic(protocol.device_id())
            &&& m.payload@ == description_json(*description)
            &&& m.retain
            &&& m.qos == QoS::ExactlyOnce
        },
{
    let p = protocol.inner.publish_description(description)?;
    Ok(MqttPublish { topic: p.topic, retain: p.retain, payload: p.payload, qos: match p.qos {
        homie5::client::QoS::AtMostOnce => QoS::AtMostOnce,
        homie5::client::QoS::AtLeastOnce => QoS::AtLeastOnce,
        homie5::client::QoS::ExactlyOnce => QoS::ExactlyOnce,
    } })
}

/// Calls `Homie5DeviceProtocol::subscribe_props` and collects the
/// subscriptions to the `/set` topics of the settable properties, each
/// requested exactly once. For a child device it succeeds: `homie5` checks
/// the description's root only for a device that is not a child. When no
/// property is settable there are none; which topics come out otherwise is
/// not stated here.
#[verifier::external_body]
pub(crate) fn subscription_messages(
    protocol: &DeviceProtocol,
    description: &HomieDeviceDescription,
) -> (r: Result<Vec<MqttSubscription>, Homie5ProtocolError>)
    ensures
        protocol.is_child() ==> r is Ok,
        r matches Ok(v) ==> none_settable(device_description_model(*description)) ==> v.len() == 0,
        r matches Ok(v) ==> forall|k: int| 0 <= k < v.len() ==> (#[trigger] v[k]).qos == QoS::ExactlyOnce,
{
    let subs = protocol.inner.subscribe_props(description)?;
    Ok(subs.map(|s| MqttSubscription { topic: s.topic, qos: match s.qos {
        homie5::client::QoS::AtMostOnce => QoS::AtMostOnce,
        homie5::client::QoS::AtLeastOnce => QoS::AtLeastOnce,
        homie5::client::QoS::ExactlyOnce => QoS::ExactlyOnce,
    } }).collect())
}

/// Calls `homie5::homie_device_publish_steps`, whose state machine starts at
/// the state step and goes through description, values and subscriptions to
/// the ready step.
#[verifier::external_body]
pub(crate) fn publish_steps() -> (steps: Vec<PublishStep>)
    ensures
        steps@ == spec_publish_steps(),
{
    homie5::homie_device_publish_steps().map(|s| match s {
        homie5::DevicePublishStep::DeviceStateInit => PublishStep::DeviceStateInit,
        homie5::DevicePublishStep::DeviceDescription => PublishStep::DeviceDescription,
        homie5::DevicePublishStep::PropertyValues => PublishStep::PropertyValues,
        homie5::DevicePublishStep::SubscribeProperties => PublishStep::SubscribeProperties,
        homie5::DevicePublishStep::DeviceStateReady => PublishStep::DeviceStateReady,
    }).collect()
}

/// Calls `DeviceDescriptionBuilder::new`: no name, root, parent, child or
/// node.
#[verifier::external_body]
pub(crate) fn device_builder() -> (r: DeviceDescriptionBuilder)
    ensures
        device_builder_model(r) == (DeviceModel {
            name: None,
            root: None,
            parent: None,
            children: Seq::empty(),
            nodes: Map::empty(),
        }),
{
    DeviceDescriptionBuilder::new()
}

/// Calls `DeviceDescriptionBuilder::name`, which sets the name.
#[verifier::external_body]
pub(crate) fn device_builder_name(b: DeviceDescriptionBuilder, name: String) -> (r: DeviceDescriptionBuilder)
    ensures
        device_builder_model(r) == (DeviceModel { name: Some(name@), ..device_builder_model(b) }),
{
    b.name(name)
}

/// Calls `DeviceDescriptionBuilder::root`, which sets the root.
#[verifier::external_body]
pub(crate) fn device_builder_root(b: DeviceDescriptionBuilder, root: ValidId) -> (r: DeviceDescriptionBuilder)
    ensures
        device_builder_model(r) == (DeviceModel { root: Some(root@), ..device_builder_model(b) }),
{
    b.root(root.id)
}

/// Calls `DeviceDescriptionBuilder::parent`, which sets the parent.
#[verifier::external_body]
pub(crate) fn device_builder_parent(b: DeviceDescriptionBuilder, parent: ValidId) -> (r: DeviceDescriptionBuilder)
    ensures
        device_builder_model(r) == (DeviceModel { parent: Some(parent@), ..device_builder_model(b) }),
{
    b.parent(parent.id)
}

/// Calls `DeviceDescriptionBuilder::add_child`, which appends a child.
#[verifier::external_body]
pub(crate) fn device_builder_child(b: DeviceDescriptionBuilder, child: ValidId) -> (r: DeviceDescriptionBuilder)
    ensures
        device_builder_model(r) == (DeviceModel {
            children: device_builder_model(b).children.push(child@),
            ..device_builder_model(b)
        }),
{
    b.add_child(child.id)
}

/// Calls `DeviceDescriptionBuilder::add_node`, which puts the node under its
/// id, replacing any node of that id.
#[verifier::external_body]
pub(crate) fn device_builder_node(
    b: DeviceDescriptionBuilder,
    node_id: ValidId,
    node: HomieNodeDescription,
) -> (r: DeviceDescriptionBuilder)
    ensures
        device_builder_model(r) == (DeviceModel {
            nodes: device_builder_model(b).nodes.insert(node_id@, node_description_model(node)),
            ..device_builder_model(b)
        }),
{
    b.add_node(node_id.id, node)
}

/// Calls `DeviceDescriptionBuilder::build`, which hands back the description
/// built so far (with its version updated).
#[verifier::external_body]
pub(crate) fn device_builder_build(b: DeviceDescriptionBuilder) -> (r: HomieDeviceDescription)
    ensures
        device_description_model(r) == device_builder_model(b),
{
    b.build()
}

/// Calls `NodeDescriptionBuilder::new`: no property.
#[verifier::external_body]
pub(crate) fn node_builder() -> (r: NodeDescriptionBuilder)
    ensures
        node_builder_model(r) == (NodeModel { properties: Map::empty() }),
{
    NodeDescriptionBuilder::new()
}

/// Calls `NodeDescriptionBuilder::add_property`, which puts the property
/// under its id, replacing any property of that id.
#[verifier::external_body]
pub(crate) fn node_builder_property(
    b: NodeDescriptionBuilder,
    prop_id: ValidId,
    property: HomiePropertyDescription,
) -> (r: NodeDescriptionBuilder)
    ensures
        node_builder_model(r) == (NodeModel {
            properties: node_builder_model(b).properties.insert(prop_id@, property_description_model(property)),
        }),
{
    b.add_property(prop_id.id, property)
}

/// Calls `NodeDescriptionBuilder::build`, which hands back the description
/// built so far.
#[verifier::external_body]
pub(crate) fn node_builder_build(b: NodeDescriptionBuilder) -> (r: HomieNodeDescription)
    ensures
        node_description_model(r) == node_builder_model(b),
{
    b.build()
}

/// Calls `PropertyDescriptionBuilder::new` with the given datatype: no unit
/// and no format, not settable, retained.
#[verifier::external_body]
pub(crate) fn property_builder(datatype: DataType) -> (r: PropertyDescriptionBuilder)
    ensures
        property_builder_model(r) == (PropertyModel {
            datatype,
            unit: None,
            range: None,
            settable: false,
            retained: true,
        }),
{
    PropertyDescriptionBuilder::new(match datatype {
        DataType::Integer => homie5::HomieDataType::Integer,
        DataType::Text => homie5::HomieDataType::String,
        DataType::Enumeration => homie5::HomieDataType::Enum,
        DataType::Datetime => homie5::HomieDataType::Datetime,
    })
}

/// Calls `PropertyDescriptionBuilder::unit`, which sets the unit.
#[verifier::external_body]
pub(crate) fn property_builder_unit(b: PropertyDescriptionBuilder, unit: String) -> (r: PropertyDescriptionBuilder)
    ensures
        property_builder_model(r) == (PropertyModel { unit: Some(unit@), ..property_builder_model(b) }),
{
    b.unit(unit)
}

/// Calls `PropertyDescriptionBuilder::format` with the integer range
/// `min..=max`, which becomes the format.
#[verifier::external_body]
pub(crate) fn property_builder_range(b: PropertyDescriptionBuilder, min: i64, max: i64) -> (r: PropertyDescriptionBuilder)
    ensures
        property_builder_model(r) == (PropertyModel { range: Some((min as int, max as int)), ..property_builder_model(b) }),
{
    b.format(min..=max)
}

/// Calls `PropertyDescriptionBuilder::retained`, which sets whether values
/// are retained.
#[verifier::external_body]
pub(crate) fn property_builder_retained(b: PropertyDescriptionBuilder, retained: bool) -> (r: PropertyDescriptionBuilder)
    ensures
        property_builder_model(r) == (PropertyModel { retained, ..property_builder_model(b) }),
{
    b.retained(retained)
}

/// Calls `PropertyDescriptionBuilder::build`, which hands back the
/// description built so far.
#[verifier::external_body]
pub(crate) fn property_builder_build(b: PropertyDescriptionBuilder) -> (r: HomiePropertyDescription)
    ensures
        property_description_model(r) == property_builder_model(b),
{
    b.build()
}

} // verus!
