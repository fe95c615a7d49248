# automower2mqtt

A bridge that publishes Husqvarna Automower Connect mowers as Homie v5
devices over MQTT. The library under `src/` is verified with Verus; the
program around it under `app/` does the network I/O.

- `src/state.rs`: what is remembered of each mower, how each websocket event
  changes it and which property values it publishes, and the republishing of
  every remembered value when a device comes online.
- `src/device.rs`: the root device and the mower child devices, the order in
  which a device is brought online, the registry of mowers, and the devices
  made from the API's list of mowers.
- `src/property.rs`: the nodes and properties of a mower device and their
  description layout.
- `src/token.rs`: when the API access token is reused and when it is renewed.
- `src/connection.rs`: the decisions of the websocket monitor and of the MQTT
  event loop.
- `src/homie.rs`, `src/clock.rs`: the calls into `homie5` and `jiff`, with the
  contracts the rest of the library relies on: the topics of messages, and a
  model of what device descriptions hold.
- `src/decimal.rs`: decimal text of integers.
- `src/order.rs`: the order of texts, by which the registry keeps its mowers.
- `src/api.rs`, `src/events.rs`: the data the API and the websocket deliver,
  as far as the bridge reads it.

`app/` parses the command line, talks to the API, the websocket and the
broker, and hands plain values to the library.
