//! A terminal snake game engine on an integer grid.
//!
//! The engine owns the snake geometry, the apple, the mode, the direction
//! and the score, and exposes one per-tick transition (`Snake::forward`)
//! together with the input-handler decisions (`Snake::try_turn`,
//! `Snake::toggle_pause`). Rendering and key polling live outside.

pub mod snake;
