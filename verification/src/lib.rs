//! The decisions of a Source-style character that moves in a physics world, and
//! the book-keeping of the bodies and shapes in it.
//!
//! Quantities are carried as IEEE single-precision patterns, which this library
//! compares, clamps and replaces, but never adds or multiplies: where a
//! decision rests on arithmetic or on the physics world, it takes the outcome
//! as an argument. What alternates between decisions and such work is a process
//! with a phase, which tells what it needs next. Its fields are its own: where it
//! stands is its view.

pub mod body;
pub mod climb;
pub mod contact;
pub mod controller;
pub mod entity;
pub mod ground;
pub mod impulse;
pub mod jump;
pub mod motion;
pub mod pickup;
pub mod runtime;
pub mod scalar;
pub mod slide;
pub mod tick;
pub mod time;
pub mod travel;
pub mod water;
