//! Abstract draw commands and the command sink: the core's sole output
//! channel. Sprites carry grid positions and sub-tile offsets; converting
//! them to pixel coordinates is the rendering collaborator's concern, so no
//! pixel math appears here.

use vstd::prelude::*;

use crate::eye::{Eye, EyeState, SubTileOffsets};
use crate::input::Input;
use crate::tile::{ArrowKind, Dir, TileData, XY};

verus! {

/// Which sprite to draw: a tile's arrow in one of 8 directions and 2 kinds,
/// or the eye in one of its animation phases (the phase selects the sprite
/// one to one).
#[derive(Clone, Copy, Debug, PartialEq, Eq, Structural)]
pub enum SpriteKind {
    Arrow(Dir, ArrowKind),
    Eye(EyeState),
}

/// One sprite to draw, at a grid position plus a sub-tile offset. Tiles are
/// always drawn at rest; the eye carries its glide offset.
#[derive(Clone, Copy, Debug, PartialEq, Eq, Structural)]
pub struct SpriteSpec {
    pub sprite: SpriteKind,
    pub xy: XY,
    pub offset: SubTileOffsets,
}

/// The style a text block is drawn in.
#[derive(Clone, Copy, Debug, PartialEq, Eq, Structural)]
pub enum TextKind {
    UI,
}

/// The informational content of a text block: the intent decoded this call,
/// or the raw animation timer for the debug dump. The renderer formats
/// either into characters.
#[derive(Clone, Copy, Debug, PartialEq, Eq, Structural)]
pub enum TextContent {
    InputStatus(Input),
    TimerStatus(u16),
}

/// One text block to draw within the side panel region.
#[derive(Clone, Copy, Debug, PartialEq, Eq, Structural)]
pub struct TextSpec {
    pub content: TextContent,
    pub kind: TextKind,
}

/// One abstract draw command for the external renderer.
#[derive(Clone, Copy, Debug, PartialEq, Eq, Structural)]
pub enum Command {
    Sprite(SpriteSpec),
    Text(TextSpec),
}

/// The sprite a tile's static content selects.
pub open spec fn spec_tile_sprite(td: TileData) -> SpriteKind {
    SpriteKind::Arrow(td.dir, td.arrow_kind)
}

impl TileData {
    /// The sprite this tile is drawn with.
    pub fn sprite(&self) -> (r: SpriteKind)
        ensures
            r == spec_tile_sprite(*self),
    {
        SpriteKind::Arrow(self.dir, self.arrow_kind)
    }
}

/// The sprite command the eye is drawn with: its grid position plus its
/// current glide offset, and the sprite its animation phase selects.
pub open spec fn spec_eye_command(e: Eye) -> Command {
    Command::Sprite(
        SpriteSpec { sprite: SpriteKind::Eye(e.state), xy: e.xy, offset: e.offset },
    )
}

/// A caller-owned, clearable, append-only sink of draw commands. The core
/// never owns the output buffer's storage strategy; it only clears and
/// appends.
pub trait ClearableStorage<A> {
    /// What the sink holds, in order of insertion.
    spec fn contents(&self) -> Seq<A>;

    /// Empties the sink.
    fn clear(&mut self)
        ensures
            final(self).contents() == Seq::<A>::empty(),
    ;

    /// Appends one element at the end.
    fn push(&mut self, a: A)
        ensures
            final(self).contents() == old(self).contents().push(a),
    ;
}

/// A growable in-memory command sink for hosts that want one ready-made.
#[derive(Clone, Debug, PartialEq, Eq)]
pub struct CommandBuffer {
    pub commands: Vec<Command>,
}

impl CommandBuffer {
    /// An empty sink.
    pub fn new() -> (r: CommandBuffer)
        ensures
            r.contents() == Seq::<Command>::empty(),
    {
        CommandBuffer { commands: Vec::new() }
    }
}

impl ClearableStorage<Command> for CommandBuffer {
    open spec fn contents(&self) -> Seq<Command> {
        self.commands@
    }

    fn clear(&mut self) {
        self.commands.clear();
    }

    fn push(&mut self, a: Command) {
        self.commands.push(a);
    }
}

} // verus!
