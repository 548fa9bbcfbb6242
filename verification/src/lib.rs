//! A small two-body orbital-mechanics core: one movable body is pulled toward
//! one fixed attractor by a simplified inverse-square law, while a trail
//! recorder samples the body's position on a fixed cadence.
//!
//! All real quantities (lengths, times, speeds) are carried as fixed-point
//! integers in thousandths of a unit, so every computation here is exact
//! integer arithmetic with a proved relation to its mathematical model.

pub mod math;
pub mod sim;
pub mod trail;
pub mod vec3;
