//! A small game-loop library: a frame counter that wraps modulo 256, the
//! clear color derived from it, the scan of each frame's input events for a
//! window-close request, the fixed initialization sequence, and the loop
//! that ties them together.
//!
//! Everything here is pure decision logic. The windowing, rendering and
//! event-queue calls themselves live outside the library, which only tells
//! the caller what to do next and what each outcome means.

pub mod color;
pub mod events;
pub mod init;
pub mod game;
