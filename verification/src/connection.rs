//! The decisions of the two connection loops: the Automower Connect
//! websocket and the MQTT broker.
use crate::events::Event;
use vstd::prelude::*;

verus! {

broadcast use vstd::string::group_string_axioms;

/// What the websocket hands the monitor, or that the ping timer is due.
pub enum SocketInput {
    /// The stream ended.
    Ended,
    /// A text or binary message that decoded to an event.
    Decoded(Event),
    /// A text or binary message that did not decode to an event.
    Undecodable,
    /// A ping with its payload.
    Ping(Vec<u8>),
    /// A pong.
    Pong,
    /// A close frame.
    Close,
    /// A protocol error.
    ProtocolError,
    /// Any other error.
    Failure,
    /// A raw frame, which reading a websocket never yields.
    Frame,
    /// The ping timer fired.
    PingDue,
}

/// What the monitor does next.
pub enum SocketAction {
    /// Connect to the websocket again.
    Reconnect,
    /// Apply the event to the mower it is about.
    Dispatch(Event),
    /// Go on reading.
    Skip,
    /// Answer with a pong carrying the ping's payload.
    SendPong(Vec<u8>),
    /// Send a ping with this payload.
    SendPing(Vec<u8>),
    /// Stop with the error.
    Fail,
}

/// The text that the monitor's pings carry.
pub open spec fn ping_text() -> Seq<char> {
    "would be very nice of you to pong, thank you very much"@
}

/// What the monitor does with each input: it reconnects when the stream
/// ends, is closed or breaks the protocol; dispatches a decoded event; skips
/// undecodable messages and pongs; answers a ping with its payload; pings when
/// the timer fires; and stops on any other error.
pub open spec fn socket_decision(input: SocketInput, action: SocketAction) -> bool {
    match input {
        SocketInput::Ended | SocketInput::Close | SocketInput::ProtocolError => action is Reconnect,
        SocketInput::Decoded(e) => action == SocketAction::Dispatch(e),
        SocketInput::Undecodable | SocketInput::Pong => action is Skip,
        SocketInput::Ping(p) => action matches SocketAction::SendPong(q) && q@ == p@,
        SocketInput::Failure => action is Fail,
        SocketInput::PingDue => action matches SocketAction::SendPing(q) && q@ == ping_text().map_values(
            |c: char| c as u8,
        ),
        SocketInput::Frame => false,
    }
}

fn ping_payload() -> (payload: Vec<u8>)
    ensures
        payload@ == ping_text().map_values(|c: char| c as u8),
{
    let text = "would be very nice of you to pong, thank you very much";
    proof {
        reveal_strlit("would be very nice of you to pong, thank you very much");
    }
    let mut payload: Vec<u8> = Vec::new();
    let n = text.unicode_len();
    let mut i: usize = 0;
    while i < n
        invariant
            i <= n,
            n == text@.len(),
            text@ == ping_text(),
            payload@ == text@.take(i as int).map_values(|c: char| c as u8),
        decreases n - i,
    {
        let c = text.get_char(i);
        payload.push(c as u8);
        assert(text@.take(i + 1) =~= text@.take(i as int).push(c));
        assert(payload@ =~= text@.take(i + 1).map_values(|c: char| c as u8));
        i = i + 1;
    }
    assert(text@.take(n as int) =~= text@);
    payload
}

/// What the monitor does with an input. A raw frame never comes from reading
/// a websocket and is refused.
pub fn socket_step(input: SocketInput) -> (action: SocketAction)
    requires
        !(input is Frame),
    ensures
        socket_decision(input, action),
{
    match input {
        SocketInput::Ended => SocketAction::Reconnect,
        SocketInput::Decoded(e) => SocketAction::Dispatch(e),
        SocketInput::Undecodable => SocketAction::Skip,
        SocketInput::Ping(p) => SocketAction::SendPong(p),
        SocketInput::Pong => SocketAction::Skip,
        SocketInput::Close => SocketAction::Reconnect,
        SocketInput::ProtocolError => SocketAction::Reconnect,
        SocketInput::Failure => SocketAction::Fail,
        SocketInput::Frame => SocketAction::Fail,
        SocketInput::PingDue => SocketAction::SendPing(ping_payload()),
    }
}

/// What the MQTT event loop hands the bridge.
pub enum MqttInput {
    /// The broker acknowledged the connection.
    ConnAck,
    /// The broker delivered a message.
    IncomingPublish,
    /// The client disconnected.
    OutgoingDisconnect,
    /// Any other packet, in either direction.
    Other,
    /// The task that publishes and monitors ended with an error.
    MonitorEnded,
    /// The task that publishes and monitors could not be joined.
    MonitorLost,
}

/// Why the bridge stops.
#[derive(Clone, Copy, Debug, PartialEq, Eq, Structural)]
pub enum StopReason {
    Disconnected,
    MonitorEnded,
    MonitorLost,
}

/// What the bridge does next.
#[derive(Clone, Copy, Debug, PartialEq, Eq, Structural)]
pub enum MqttAction {
    /// Publish the devices and start monitoring the mowers.
    StartPublishing,
    /// Go on polling.
    Continue,
    /// Stop.
    Stop(StopReason),
}

/// What the bridge does with each input of the MQTT loop: every connection
/// acknowledgement starts publishing and monitoring, a disconnect or the end
/// of the monitoring task stops it, and everything else is let through.
pub open spec fn mqtt_decision(input: MqttInput) -> MqttAction {
    match input {
        MqttInput::ConnAck => MqttAction::StartPublishing,
        MqttInput::OutgoingDisconnect => MqttAction::Stop(StopReason::Disconnected),
        MqttInput::MonitorEnded => MqttAction::Stop(StopReason::MonitorEnded),
        MqttInput::MonitorLost => MqttAction::Stop(StopReason::MonitorLost),
        _ => MqttAction::Continue,
    }
}

/// What the bridge does with an input of the MQTT loop. Incoming messages
/// are not handled and are refused.
pub fn mqtt_step(input: MqttInput) -> (action: MqttAction)
    requires
        !(input is IncomingPublish),
    ensures
        action == mqtt_decision(input),
{
    match input {
        MqttInput::ConnAck => MqttAction::StartPublishing,
        MqttInput::IncomingPublish => MqttAction::Continue,
        MqttInput::OutgoingDisconnect => MqttAction::Stop(StopReason::Disconnected),
        MqttInput::Other => MqttAction::Continue,
        MqttInput::MonitorEnded => MqttAction::Stop(StopReason::MonitorEnded),
        MqttInput::MonitorLost => MqttAction::Stop(StopReason::MonitorLost),
    }
}

} // verus!
