//! Decision logic of a screen dimmer: one semi-transparent overlay per
//! display output that fades in and ends the program on the first user input.
//!
//! The library holds the state and decides what happens on each compositor
//! event; the protocol requests themselves are made by the caller, which
//! performs the actions that the functions here return.

pub mod alpha;
pub mod consts;
pub mod buffer;
pub mod surface;
pub mod outputs;
pub mod opts;
pub mod dim;
