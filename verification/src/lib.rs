//! A bridge between Husqvarna Automower Connect and Homie v5 over MQTT:
//! the mowers' state, the events that change it, the Homie device each mower
//! is published as, and the decisions of the connection loops.
pub mod decimal;
pub mod homie;
pub mod property;
pub mod clock;
pub mod api;
pub mod events;
pub mod state;
pub mod device;
pub mod token;
pub mod connection;
pub mod order;
