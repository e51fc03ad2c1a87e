//! Per-tick simulation of hostile agents in a tile world: motion policy,
//! projectile hits, animation counters and sprite-sheet cell selection.
//!
//! Positions are integers in thousandths of a world unit, so every
//! comparison and displacement here is exact.

pub mod geometry;
pub mod orientation;
pub mod sprite;
pub mod system;
pub mod terrain;
pub mod window;
pub mod zombie;

pub use geometry::{overlaps, Position};
pub use orientation::{Orientation, Stance};
pub use sprite::{SheetCell, SpriteSheet};
pub use system::PreDrawSystem;
pub use terrain::{set_position, TerrainShape, TerrainShapeObjects};
pub use window::{
    poll_events, process_keyboard_input, process_window_event, CharacterControl, Command, Control,
    GameOptions, Key, KeyboardInput, WindowEvent, WindowStatus,
};
pub use zombie::{TickInput, ZombieDrawable};
