//! Top-level game state and the fixed-timestep update loop: seeds a session,
//! runs whole simulation steps, and emits the draw command stream.

use vstd::prelude::*;

use crate::commands::{
    ClearableStorage, Command, SpriteKind, SpriteSpec, TextContent, TextKind, TextSpec,
    spec_eye_command, spec_tile_sprite,
};
use crate::eye::{self, Eye, SubTileOffsets, spec_eye_steps, spec_initial_eye};
use crate::input::{Input, InputFlags, spec_input_from_flags};
use crate::rng::{Seed, Xs, spec_xs_from_seed, xs_from_seed};
use crate::tile::{TileData, Tiles, i_to_xy, spec_i_to_xy, spec_tiles_prefix};

verus! {

/// A monotonically increasing frame counter used only for animation phase
/// timing, never for game-affecting randomness. It advances once per host
/// call, not once per simulation step — a deliberate choice: every step
/// within one call reads the same timer value for phase gating, so a call
/// that performs several steps cannot skip a phase boundary. It wraps at its
/// fixed modulus.
pub type AnimationTimer = u16;

/// Where the animation timer wraps to zero. Chosen for its many small prime
/// factors, so that many phase lengths divide it evenly.
pub const ANIMATION_TIMER_LENGTH: AnimationTimer = 60 * 60 * 18;

/// The static board: the full grid of tiles, generated once at game start
/// and immutable for the session. The generator is used for creation only
/// and is not retained.
#[derive(Clone, Debug, PartialEq, Eq)]
pub struct Board {
    pub tiles: Tiles,
}

impl Board {
    /// The grid has its fixed size.
    pub open spec fn wf(self) -> bool {
        self.tiles.wf()
    }

    /// Builds the board a seed yields: the generator state the seed maps to,
    /// then one tile per cell in row-major order.
    pub fn from_seed(seed: Seed) -> (r: Board)
        ensures
            r.wf(),
            r.tiles.tiles@ == spec_tiles_prefix(spec_xs_from_seed(seed), 256).1,
    {
        let mut rng = xs_from_seed(seed);
        let tiles = Tiles::from_rng(&mut rng);
        Board { tiles }
    }
}

/// The top-level aggregate: one instance per game session, owned exclusively
/// by the host and mutated in place by `update`.
#[derive(Clone, Debug, PartialEq, Eq)]
pub struct State {
    pub board: Board,
    pub eye: Eye,
    pub animation_timer: AnimationTimer,
}

/// The mathematical model of a session's state: the tile sequence, the eye,
/// and the animation timer.
pub ghost struct StateModel {
    pub tiles: Seq<TileData>,
    pub eye: Eye,
    pub animation_timer: AnimationTimer,
}

impl StateModel {
    /// The board is full-sized, the eye is on the grid, and the timer is
    /// below its modulus.
    pub open spec fn wf(self) -> bool {
        self.tiles.len() == 256 && self.eye.wf() && self.animation_timer < ANIMATION_TIMER_LENGTH
    }
}

impl View for State {
    type V = StateModel;

    open spec fn view(&self) -> StateModel {
        StateModel {
            tiles: self.board.tiles.tiles@,
            eye: self.eye,
            animation_timer: self.animation_timer,
        }
    }
}

/// The state a seed yields at game start: the generated board, the eye at
/// its starting cell, and the timer at zero.
pub open spec fn spec_from_seed(seed: Seed) -> StateModel {
    StateModel {
        tiles: spec_tiles_prefix(spec_xs_from_seed(seed), 256).1,
        eye: spec_initial_eye(),
        animation_timer: 0,
    }
}

/// One increment of the animation timer: up by one, wrapping to zero at the
/// fixed modulus, never overflowing.
pub open spec fn spec_timer_tick(t: AnimationTimer) -> AnimationTimer {
    if t + 1 >= ANIMATION_TIMER_LENGTH {
        0
    } else {
        (t + 1) as AnimationTimer
    }
}

/// The state after the simulation steps of one call, before the timer tick
/// and the command emission: the decoded intent applies uniformly to every
/// step, the board never changes, and the timer is only read.
pub open spec fn spec_state_after_steps(s: StateModel, input: Input, n: nat) -> StateModel {
    StateModel {
        tiles: s.tiles,
        eye: spec_eye_steps(s.eye, input, s.animation_timer, n),
        animation_timer: s.animation_timer,
    }
}

/// The state one whole `update` call leaves behind: the raw flags decoded
/// once, `n` simulation steps, then one timer tick.
pub open spec fn spec_update_state(s: StateModel, flags: InputFlags, n: nat) -> StateModel {
    let s1 = spec_state_after_steps(s, spec_input_from_flags(flags), n);
    StateModel {
        tiles: s1.tiles,
        eye: s1.eye,
        animation_timer: spec_timer_tick(s.animation_timer),
    }
}

/// The sprite command one tile is drawn with: its content's sprite, at the
/// position its row-major index denotes, at rest.
pub open spec fn spec_tile_command(tiles: Seq<TileData>, i: int) -> Command {
    Command::Sprite(
        SpriteSpec {
            sprite: spec_tile_sprite(tiles[i]),
            xy: spec_i_to_xy(i),
            offset: SubTileOffsets { x: 0i8, y: 0i8 },
        },
    )
}

/// The first `n` tile sprite commands, in row-major cell order.
pub open spec fn spec_tile_commands_prefix(tiles: Seq<TileData>, n: int) -> Seq<Command> {
    Seq::new(n as nat, |i: int| spec_tile_command(tiles, i))
}

/// Everything one call emits, in order: one sprite per of the 256 tiles,
/// the eye's sprite, then two text blocks (the decoded intent, and the raw
/// animation timer for the debug dump). `s` is the state after the call's
/// simulation steps but before its timer tick.
pub open spec fn spec_commands(s: StateModel, input: Input) -> Seq<Command> {
    spec_tile_commands_prefix(s.tiles, 256).push(spec_eye_command(s.eye)).push(
        Command::Text(TextSpec { content: TextContent::InputStatus(input), kind: TextKind::UI }),
    ).push(
        Command::Text(
            TextSpec { content: TextContent::TimerStatus(s.animation_timer), kind: TextKind::UI },
        ),
    )
}

impl State {
    /// The board is full-sized, the eye is on the grid, and the timer is
    /// below its modulus.
    pub open spec fn wf(self) -> bool {
        self@.wf()
    }

    /// Creates the session a seed determines. Two sessions created from the
    /// same seed are identical.
    pub fn from_seed(seed: Seed) -> (r: State)
        ensures
            r@ == spec_from_seed(seed),
            r.wf(),
    {
        State { board: Board::from_seed(seed), eye: Eye::new(), animation_timer: 0 }
    }
}

/// Runs one host call: clears the sink, decodes the raw flags once, performs
/// exactly `sim_steps` whole simulation steps under that one intent, emits
/// the draw command stream for the resulting state, and finally ticks the
/// animation timer. Converting wall-clock delta time into a whole number of
/// fixed-length steps (discarding the remainder within the call) is the
/// host's side of the contract.
pub fn update<C: ClearableStorage<Command>>(
    state: &mut State,
    commands: &mut C,
    input_flags: InputFlags,
    sim_steps: u32,
)
    requires
        old(state).wf(),
    ensures
        final(state).wf(),
        final(state)@ == spec_update_state(old(state)@, input_flags, sim_steps as nat),
        final(commands).contents() == spec_commands(
            spec_state_after_steps(
                old(state)@,
                spec_input_from_flags(input_flags),
                sim_steps as nat,
            ),
            spec_input_from_flags(input_flags),
        ),
{
    commands.clear();

    let input = Input::from_flags(input_flags);

    let mut k: u32 = 0;
    while k < sim_steps
        invariant
            k <= sim_steps,
            state.board == old(state).board,
            state.animation_timer == old(state).animation_timer,
            state.eye == spec_eye_steps(
                old(state).eye,
                input,
                old(state).animation_timer,
                k as nat,
            ),
            old(state).wf(),
            state.eye.wf(),
        decreases sim_steps - k,
    {
        eye::step(&mut state.eye, input, state.animation_timer);
        k = k + 1;
    }

    let mut i: usize = 0;
    while i < 256
        invariant
            i <= 256,
            state@ == spec_state_after_steps(
                old(state)@,
                spec_input_from_flags(input_flags),
                sim_steps as nat,
            ),
            input == spec_input_from_flags(input_flags),
            state.board.tiles.tiles@.len() == 256,
            commands.contents() == spec_tile_commands_prefix(state.board.tiles.tiles@, i as int),
        decreases 256 - i,
    {
        let td = state.board.tiles.tiles[i];
        let txy = i_to_xy(i);
        commands.push(
            Command::Sprite(
                SpriteSpec { sprite: td.sprite(), xy: txy, offset: SubTileOffsets::zero() },
            ),
        );
        proof {
            assert(commands.contents() =~= spec_tile_commands_prefix(
                state.board.tiles.tiles@,
                i + 1,
            ));
        }
        i = i + 1;
    }

    commands.push(
        Command::Sprite(
            SpriteSpec {
                sprite: SpriteKind::Eye(state.eye.state),
                xy: state.eye.xy,
                offset: state.eye.offset,
            },
        ),
    );

    commands.push(
        Command::Text(TextSpec { content: TextContent::InputStatus(input), kind: TextKind::UI }),
    );

    commands.push(
        Command::Text(
            TextSpec {
                content: TextContent::TimerStatus(state.animation_timer),
                kind: TextKind::UI,
            },
        ),
    );

    let t = state.animation_timer + 1;
    state.animation_timer = if t >= ANIMATION_TIMER_LENGTH {
        0
    } else {
        t
    };
}

/// One host call of a replayed session: the raw flags it passed and the
/// whole simulation steps it performed.
pub type CallRecord = (InputFlags, u32);

/// The state a session reaches after replaying a sequence of host calls
/// from a seed. The command stream of each call is likewise a function of
/// the state it was emitted from, so this pins the whole trajectory.
pub open spec fn spec_session(seed: Seed, calls: Seq<CallRecord>) -> StateModel
    decreases calls.len(),
{
    if calls.len() == 0 {
        spec_from_seed(seed)
    } else {
        let prev = spec_session(seed, calls.drop_last());
        spec_update_state(prev, calls.last().0, calls.last().1 as nat)
    }
}

/// Determinism: two sessions constructed independently from the same seed
/// and fed the identical call sequence are bit-identical, board, eye
/// trajectory and timer alike.
pub proof fn lemma_determinism(seed: Seed, calls: Seq<CallRecord>, s1: StateModel, s2: StateModel)
    requires
        s1 == spec_session(seed, calls),
        s2 == spec_session(seed, calls),
    ensures
        s1 == s2,
        s1.tiles == s2.tiles,
        s1.eye == s2.eye,
        s1.animation_timer == s2.animation_timer,
{
}

/// A session stays well formed: replaying any call sequence from any seed
/// leaves the eye on the grid and the timer below its modulus.
pub proof fn lemma_session_wf(seed: Seed, calls: Seq<CallRecord>)
    ensures
        spec_session(seed, calls).wf(),
    decreases calls.len(),
{
    if calls.len() == 0 {
        lemma_from_seed_wf(seed);
    } else {
        let prev = spec_session(seed, calls.drop_last());
        lemma_session_wf(seed, calls.drop_last());
        eye::lemma_steps_stay_in_grid(
            prev.eye,
            spec_input_from_flags(calls.last().0),
            prev.animation_timer,
            calls.last().1 as nat,
        );
    }
}

/// The state a seed yields is well formed: full board, eye on the grid,
/// timer below its modulus.
pub proof fn lemma_from_seed_wf(seed: Seed)
    ensures
        spec_from_seed(seed).wf(),
{
    lemma_tiles_prefix_len(spec_xs_from_seed(seed), 256);
}

/// The tile generation of `n` cells yields exactly `n` tiles.
proof fn lemma_tiles_prefix_len(xs: Xs, n: int)
    ensures
        n >= 0 ==> spec_tiles_prefix(xs, n).1.len() == n,
    decreases n,
{
    if n > 0 {
        lemma_tiles_prefix_len(xs, n - 1);
    }
}

/// Animation timer wrap: from one below the modulus the timer returns to
/// zero, never exceeding the modulus or overflowing; below that it simply
/// counts up by one.
pub proof fn lemma_timer_wrap()
    ensures
        spec_timer_tick((ANIMATION_TIMER_LENGTH - 1) as AnimationTimer) == 0,
        forall|t: AnimationTimer|
            t + 1 < ANIMATION_TIMER_LENGTH ==> spec_timer_tick(t) == t + 1,
        forall|t: AnimationTimer|
            t < ANIMATION_TIMER_LENGTH ==> spec_timer_tick(t) < ANIMATION_TIMER_LENGTH,
{
}

} // verus!
