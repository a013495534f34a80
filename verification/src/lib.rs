//! Pecking Order: the rules of a small action game about a Carolina wren,
//! written as verified functions over plain values.
//!
//! The engine side (rendering, input, the entity store, floating-point motion)
//! lives outside this library; it reads the world, hands plain values to the
//! functions here, and carries out what they decide.
pub mod game;
pub mod hud;
pub mod loading;
pub mod menu;
pub mod proximity;
pub mod states;
pub mod timers;
