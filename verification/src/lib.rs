//! A client for the Inovo robot arm.
//!
//! The arm is told what to do over a channel that carries one line each way:
//! an instruction goes out as a JSON object, an answer comes back. This
//! library holds what is said over the channel and what follows from the
//! answers. It opens no socket and no file: the channel is a
//! [`socket::Transport`] that the program brings, and what a logger wants
//! written is handed back to the caller.
//!
//! * [`iva`] is the vocabulary: instructions, commands, targets, and how
//!   they are written on the wire.
//! * [`robot`] is the arm: the round trip of an instruction, the commands
//!   built on it, batches of commands, and reading the answers.
//! * [`context`] undoes what was done: contexts are entered on a machine and
//!   left in the opposite order. [`robot::MotionContext`] moves the arm and
//!   moves it back; [`robot::ParamContext`] sets motion parameters and puts
//!   back the ones before.
//! * [`geometry`] and [`number`] hold poses and the fixed-point decimals in
//!   which all quantities are kept: lengths and angles are whole hundredths
//!   of a millimetre or of a degree, durations are thousandths of a second.
//! * [`logger`] and [`ros_bridge`] write log lines and the messages that
//!   start the program on the robot.
pub mod context;
pub mod geometry;
pub mod iva;
pub mod logger;
pub mod number;
pub mod robot;
pub mod ros_bridge;
pub mod socket;
