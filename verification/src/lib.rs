//! Core of an interactive vehicle simulation driven by a real-time control
//! loop.
//!
//! The crate owns the decision logic of the loop: translating raw key events
//! into semantic actions, dispatching those actions over the vehicle's
//! actuation state (accumulated drive torque and completed physics steps),
//! and telling the surrounding runtime what to perform on each action
//! (advance the physics, apply a torque, redraw). The numeric integration
//! itself and all terminal input/output are performed outside this crate;
//! the contracts here pin down exactly which commands come out of which
//! event sequences, and in what order.

pub mod app;
pub mod events;
pub mod game;
pub mod laws;
