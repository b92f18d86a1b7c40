//! The control loop of a small e-paper status panel.
//!
//! The panel fetches a short status text over the network now and then and
//! shows it. This library holds what the device decides: when to redraw, what
//! to show for an error, how text is cut to fit, and when to give up and halt.
//! Talking to the radio, the network and the panel is left to the firmware
//! around it.
//!
//! - [`text`]: measuring text in bytes, cutting it at character boundaries,
//!   stripping trailing white space.
//! - [`bounded`]: the status text, a string of at most 32 bytes.
//! - [`report`]: the line of text that stands for an error.
//! - [`decimal`]: numbers in decimal digits.
//! - [`front`]: reading the backend's answer.
//! - [`draw`]: what is drawn, and in which glyph size.
//! - [`control`]: the control loop as a state machine.
//! - [`traces`]: what holds of every run of the control loop.
//! - [`link`]: keeping the network link up.

pub mod bounded;
pub mod control;
pub mod decimal;
pub mod draw;
pub mod front;
pub mod link;
pub mod report;
pub mod text;
pub mod traces;
