//! The core of a Pong game, verified with Verus.
//!
//! Two things live here. The batching 2D renderer decides what the
//! graphics device is asked to do and records each request as a command;
//! it never touches the device. The simulation moves a ball and two
//! paddles in fixed-point arithmetic and lets the ball bounce off paddles
//! and walls. Window, clock, image files and the device itself belong to
//! the program around this library, which hands in plain values.

pub mod fixed;
pub mod physics;
pub mod motion;
pub mod ball;
pub mod paddle;
pub mod player;
pub mod input;
pub mod frame;
pub mod game;

mod gl;
pub mod buffer;
pub mod vertex;
pub mod texture;
pub mod command;
pub mod camera;
pub mod renderer;
pub mod scene;
