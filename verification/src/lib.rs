//! A presentation lifecycle manager: the decisions behind a window that is
//! repainted with a solid colour, kept apart from the window system and the
//! graphics device that carry them out.
//!
//! - [`device`]: what is asked of adapter and device, and the context that
//!   the answers make.
//! - [`surface`]: the surface manager, its configuration and its frames.
//! - [`render`]: the steps that put one frame on the screen.
//! - [`controller`]: the state machine that answers each event with an
//!   action.
//! - [`application`]: the owner that ties these together.
//! - [`color`], [`config`]: clear colours, and what varies between programs.

pub mod application;
pub mod color;
pub mod config;
pub mod controller;
pub mod device;
pub mod render;
pub mod surface;
