//! Deterministic simulation core of a small grid puzzle game: a 16x16 board
//! of directional arrow tiles and a single player-controlled "eye" token that
//! glides between cells and cycles through an idle-animation state machine.
//!
//! The core is driven by a seed, a stream of raw input flags and a count of
//! fixed-length simulation steps, and emits an ordered list of abstract draw
//! commands for an external renderer.

pub mod commands;
pub mod eye;
pub mod input;
pub mod rng;
pub mod state;
pub mod tile;

pub use commands::{ClearableStorage, Command, CommandBuffer, SpriteKind, SpriteSpec, TextContent,
    TextKind, TextSpec};
pub use eye::{Eye, EyeState, SubTileOffset, SubTileOffsets};
pub use input::{Input, InputFlags};
pub use rng::{Seed, Xs, xorshift, xs_u32, xs_from_seed, new_seed, xs_shuffle};
pub use state::{AnimationTimer, Board, State, ANIMATION_TIMER_LENGTH, update};
pub use tile::{ArrowKind, Dir, TileData, Tiles, TILES_LENGTH};
