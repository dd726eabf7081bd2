//! Closed-loop fan-speed control: the temperature-to-speed curve, the
//! normalisation of user-supplied parameters, and the periodic control loop
//! as a state machine that a driver feeds with events.

pub mod args;
pub mod control;
pub mod curve;
pub mod trace;
pub mod validate;
