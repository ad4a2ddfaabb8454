//! Alarm-driven irrigation scheduling: the sections and their watering
//! durations, the watering scheduler, and the decisions of the clock service
//! that arms the two alarms of the real-time clock.
//!
//! Every component is a sequential state machine.  It takes a message, changes
//! its own state and answers with the list of requests that its collaborators
//! (the valves, the real-time clock, the subscribers) have to carry out.

pub mod clock;
pub mod http_server;
pub mod safety;
pub mod sections;
pub mod watering;
