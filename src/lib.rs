//! Decision logic of an interactive screen-region capture tool: the pointer
//! selection state machine, the window-role registry, the capture and draw
//! session protocols, and the render device fallback. The native windowing
//! and graphics calls live with the program that drives this library.

pub mod geometry;
pub mod errors;
pub mod window;
pub mod controller;
pub mod selection;
pub mod handlers;
pub mod capture;
pub mod surface;
pub mod target;
