//! A verified, deterministic core for a breakout-style arcade game.
//!
//! The simulation works on fixed-point coordinates: every length is an `i64`
//! count of subpixels, with [`layout::SUBPIXEL`] subpixels to one pixel, and
//! time advances in fixed ticks of the physics schedule. On that model the
//! crate proves the pieces that drive the game: circle/box collision with a
//! four-way side classification ([`geom`]), the arena and brick-grid layout
//! ([`layout`]), paddle and ball motion with visual interpolation and the
//! collision sweep that reflects the ball and scores bricks ([`sim`]), the
//! scoreboard's decimal text ([`scoreboard`]), and countdown timers for timed
//! note entities ([`notes`]).
//!
//! Rendering, input polling, audio and the rest of the engine glue live
//! outside this crate; they feed plain values in and read plain values out.

pub mod geom;
pub mod layout;
pub mod notes;
pub mod scoreboard;
pub mod sim;
