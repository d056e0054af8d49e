//! The rules of a table-tennis game whose paddle is steered from a handheld
//! controller.
//!
//! The controller sends text frames over a secured connection. The program
//! around this library runs the network, the physics engine and the scene.
//! What it has to decide it asks here: what a frame says, which commands
//! wait, what a command means for the paddle, what a collision means for the
//! ball, and when the ball is taken back.

pub mod codec;
pub mod command;
pub mod lifecycle;
pub mod math;
pub mod paddle;
pub mod practice;
pub mod reaction;
pub mod resources;
pub mod screen;
pub mod session;
pub mod transport;
