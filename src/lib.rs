//! The rules of a small side-scrolling chase game: a player runs left or
//! right across a strip whose edges join, eats food, and is hunted by an
//! enemy whose touch ends the game.
//!
//! Positions are integers in millionths of a pixel and time is counted in
//! microseconds, so every rule here is exact.
pub mod actor;
pub mod food;
pub mod game;
pub mod geometry;
pub mod score;
