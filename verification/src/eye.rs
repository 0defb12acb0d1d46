//! Eye entity and animation state machine: the player-controlled token owns
//! a grid position, a sub-tile glide offset per axis, and an animation state
//! that advances on a fixed timestep using the decoded input intent.

use vstd::prelude::*;

use crate::input::Input;
use crate::tile::{Coord, Dir, X, XY, Y};

verus! {

/// How many simulation steps a timer-gated animation phase holds before its
/// transition condition can fire.
pub const HOLD_FRAMES: u16 = 30;

/// The pixel-level interpolation offset within a tile, on one axis.
pub type SubTileOffset = i8;

/// The magnitude a sub-tile offset axis is set to when a move begins; it
/// then decays toward zero by one unit per simulation step.
pub const GLIDE_OFFSET: SubTileOffset = 16;

/// The sub-tile offsets of both axes. Nonzero only during an in-progress
/// inter-tile glide.
#[derive(Clone, Copy, Debug, PartialEq, Eq, Structural)]
pub struct SubTileOffsets {
    pub x: SubTileOffset,
    pub y: SubTileOffset,
}

impl SubTileOffsets {
    /// Both axes stay within one glide magnitude.
    pub open spec fn wf(self) -> bool {
        -16 <= self.x <= 16 && -16 <= self.y <= 16
    }

    /// Whether a glide is in progress on either axis.
    pub open spec fn spec_is_zero(self) -> bool {
        self.x == 0 && self.y == 0
    }

    /// Offsets with both axes at rest.
    pub fn zero() -> (r: SubTileOffsets)
        ensures
            r.spec_is_zero(),
            r.wf(),
            r == (SubTileOffsets { x: 0i8, y: 0i8 }),
    {
        SubTileOffsets { x: 0, y: 0 }
    }
}

/// The eye's current animation phase: a closed set that drives sprite
/// selection one to one. The machine cycles indefinitely while idle; there
/// is no terminal state.
#[derive(Clone, Copy, Debug, PartialEq, Eq, Structural)]
pub enum EyeState {
    Idle,
    Moved(Dir),
    NarrowAnimLeft,
    NarrowAnimCenter,
    NarrowAnimRight,
    SmallPupil,
    Closed,
    HalfLid,
}

/// The player-controlled token: a grid position that is always a valid cell,
/// a sub-tile offset that is nonzero only during a glide, and an animation
/// state.
#[derive(Clone, Copy, Debug, PartialEq, Eq, Structural)]
pub struct Eye {
    pub xy: XY,
    pub offset: SubTileOffsets,
    pub state: EyeState,
}

impl Eye {
    /// The position is a valid grid cell and the offsets are bounded.
    pub open spec fn wf(self) -> bool {
        self.xy.wf() && self.offset.wf()
    }

    /// The eye a fresh session starts with: the top-left cell, at rest,
    /// idle.
    pub fn new() -> (r: Eye)
        ensures
            r == spec_initial_eye(),
            r.wf(),
    {
        Eye { xy: XY { x: X(0), y: Y(0) }, offset: SubTileOffsets { x: 0, y: 0 }, state: EyeState::Idle }
    }
}

/// The eye a fresh session starts with.
pub open spec fn spec_initial_eye() -> Eye {
    Eye {
        xy: XY { x: X(0), y: Y(0) },
        offset: SubTileOffsets { x: 0i8, y: 0i8 },
        state: EyeState::Idle,
    }
}

/// The horizontal unit a direction moves by: positive is rightward.
pub open spec fn spec_dir_dx(d: Dir) -> int {
    match d {
        Dir::Up => 0,
        Dir::UpRight => 1,
        Dir::Right => 1,
        Dir::DownRight => 1,
        Dir::Down => 0,
        Dir::DownLeft => -1,
        Dir::Left => -1,
        Dir::UpLeft => -1,
    }
}

/// The vertical unit a direction moves by: positive is downward.
pub open spec fn spec_dir_dy(d: Dir) -> int {
    match d {
        Dir::Up => -1,
        Dir::UpRight => -1,
        Dir::Right => 0,
        Dir::DownRight => 1,
        Dir::Down => 1,
        Dir::DownLeft => 1,
        Dir::Left => 0,
        Dir::UpLeft => -1,
    }
}

/// One saturating move of a horizontal coordinate: absorbed at either grid
/// edge.
pub open spec fn spec_moved_x(x: X, dx: int) -> X {
    if dx > 0 {
        X(if x.0 < 15 { (x.0 + 1) as Coord } else { 15 as Coord })
    } else if dx < 0 {
        X(if x.0 > 0 { (x.0 - 1) as Coord } else { 0 as Coord })
    } else {
        x
    }
}

/// One saturating move of a vertical coordinate: absorbed at either grid
/// edge.
pub open spec fn spec_moved_y(y: Y, dy: int) -> Y {
    if dy > 0 {
        Y(if y.0 < 15 { (y.0 + 1) as Coord } else { 15 as Coord })
    } else if dy < 0 {
        Y(if y.0 > 0 { (y.0 - 1) as Coord } else { 0 as Coord })
    } else {
        y
    }
}

/// One unit of glide decay on one axis: the magnitude shrinks by exactly one
/// toward zero, stopping at zero without overshooting or oscillating.
pub open spec fn spec_decayed(v: SubTileOffset) -> SubTileOffset {
    if v > 0 {
        (v - 1) as SubTileOffset
    } else if v < 0 {
        (v + 1) as SubTileOffset
    } else {
        v
    }
}

/// One simulation step of an in-progress glide: each nonzero axis decays by
/// one unit, independently.
pub open spec fn spec_glide_step(o: SubTileOffsets) -> SubTileOffsets {
    SubTileOffsets { x: spec_decayed(o.x), y: spec_decayed(o.y) }
}

/// The timer-gated idle transition table, evaluated only when the eye has no
/// pending glide and the intent is "no change". Each phase holds until the
/// animation timer reaches the right residue modulo a multiple of the hold
/// length.
pub open spec fn spec_idle_transition(s: EyeState, timer: u16) -> EyeState {
    match s {
        EyeState::Idle => if timer % ((3 * HOLD_FRAMES) as u16) == 0 {
            EyeState::NarrowAnimCenter
        } else {
            EyeState::Idle
        },
        EyeState::Moved(d) => if timer % HOLD_FRAMES == 0 {
            EyeState::Idle
        } else {
            EyeState::Moved(d)
        },
        EyeState::SmallPupil => if timer % ((3 * HOLD_FRAMES) as u16) == 0 {
            EyeState::Closed
        } else {
            EyeState::SmallPupil
        },
        EyeState::Closed => if timer % HOLD_FRAMES == 0 {
            EyeState::HalfLid
        } else {
            EyeState::Closed
        },
        EyeState::HalfLid => if timer % ((5 * HOLD_FRAMES) as u16) == 0 {
            EyeState::Idle
        } else {
            EyeState::HalfLid
        },
        EyeState::NarrowAnimCenter => if timer % ((4 * HOLD_FRAMES) as u16) == 0 {
            EyeState::NarrowAnimRight
        } else if timer % ((4 * HOLD_FRAMES) as u16) == 2 * HOLD_FRAMES {
            EyeState::NarrowAnimLeft
        } else {
            EyeState::NarrowAnimCenter
        },
        EyeState::NarrowAnimLeft => if timer % HOLD_FRAMES == 0 {
            EyeState::NarrowAnimCenter
        } else {
            EyeState::NarrowAnimLeft
        },
        EyeState::NarrowAnimRight => if timer % HOLD_FRAMES == 0 {
            EyeState::NarrowAnimCenter
        } else {
            EyeState::NarrowAnimRight
        },
    }
}

/// One accepted directional move: the position advances one cell with
/// saturating arithmetic (edge moves are absorbed but still count as moved),
/// the state becomes `Moved`, and each axis whose position actually changed
/// gets a glide offset of fixed magnitude with sign opposite the travel.
pub open spec fn spec_move_eye(e: Eye, d: Dir) -> Eye {
    let dx = spec_dir_dx(d);
    let dy = spec_dir_dy(d);
    let nx = spec_moved_x(e.xy.x, dx);
    let ny = spec_moved_y(e.xy.y, dy);
    Eye {
        xy: XY { x: nx, y: ny },
        offset: SubTileOffsets {
            x: if nx != e.xy.x {
                (-dx * GLIDE_OFFSET) as SubTileOffset
            } else {
                e.offset.x
            },
            y: if ny != e.xy.y {
                (-dy * GLIDE_OFFSET) as SubTileOffset
            } else {
                e.offset.y
            },
        },
        state: EyeState::Moved(d),
    }
}

/// One simulation step of the eye. While a glide is in progress no input is
/// processed: the offsets decay instead. Otherwise a directional intent
/// moves the eye, an interact intent forces `SmallPupil` immediately
/// regardless of state or timer, and "no change" consults the timer-gated
/// transition table.
pub open spec fn spec_eye_step(e: Eye, input: Input, timer: u16) -> Eye {
    if !e.offset.spec_is_zero() {
        Eye { xy: e.xy, offset: spec_glide_step(e.offset), state: e.state }
    } else {
        match input {
            Input::NoChange => Eye {
                xy: e.xy,
                offset: e.offset,
                state: spec_idle_transition(e.state, timer),
            },
            Input::Dir(d) => spec_move_eye(e, d),
            Input::Interact => Eye { xy: e.xy, offset: e.offset, state: EyeState::SmallPupil },
        }
    }
}

/// The eye after `n` simulation steps under one unchanged intent and timer
/// value.
pub open spec fn spec_eye_steps(e: Eye, input: Input, timer: u16, n: nat) -> Eye
    decreases n,
{
    if n == 0 {
        e
    } else {
        spec_eye_step(spec_eye_steps(e, input, timer, (n - 1) as nat), input, timer)
    }
}

/// Advances the eye by one simulation step.
pub fn step(eye: &mut Eye, input: Input, timer: u16)
    ensures
        *final(eye) == spec_eye_step(*old(eye), input, timer),
        old(eye).wf() ==> final(eye).wf(),
{
    if eye.offset.x != 0 || eye.offset.y != 0 {
        if eye.offset.x > 0 {
            eye.offset.x = eye.offset.x - 1;
        } else if eye.offset.x < 0 {
            eye.offset.x = eye.offset.x + 1;
        }
        if eye.offset.y > 0 {
            eye.offset.y = eye.offset.y - 1;
        } else if eye.offset.y < 0 {
            eye.offset.y = eye.offset.y + 1;
        }
    } else {
        match input {
            Input::NoChange => {
                eye.state = idle_transition(eye.state, timer);
            },
            Input::Dir(d) => {
                let (dx, dy): (i8, i8) = match d {
                    Dir::Up => (0, -1),
                    Dir::UpRight => (1, -1),
                    Dir::Right => (1, 0),
                    Dir::DownRight => (1, 1),
                    Dir::Down => (0, 1),
                    Dir::DownLeft => (-1, 1),
                    Dir::Left => (-1, 0),
                    Dir::UpLeft => (-1, -1),
                };
                let nx = if dx > 0 {
                    eye.xy.x.saturating_inc()
                } else if dx < 0 {
                    eye.xy.x.saturating_dec()
                } else {
                    eye.xy.x
                };
                let ny = if dy > 0 {
                    eye.xy.y.saturating_inc()
                } else if dy < 0 {
                    eye.xy.y.saturating_dec()
                } else {
                    eye.xy.y
                };
                if nx != eye.xy.x {
                    eye.offset.x = if dx > 0 {
                        -GLIDE_OFFSET
                    } else {
                        GLIDE_OFFSET
                    };
                }
                if ny != eye.xy.y {
                    eye.offset.y = if dy > 0 {
                        -GLIDE_OFFSET
                    } else {
                        GLIDE_OFFSET
                    };
                }
                eye.xy.x = nx;
                eye.xy.y = ny;
                eye.state = EyeState::Moved(d);
            },
            Input::Interact => {
                eye.state = EyeState::SmallPupil;
            },
        }
    }
}

/// Evaluates the timer-gated idle transition table.
fn idle_transition(s: EyeState, timer: u16) -> (r: EyeState)
    ensures
        r == spec_idle_transition(s, timer),
{
    match s {
        EyeState::Idle => if timer % (3 * HOLD_FRAMES) == 0 {
            EyeState::NarrowAnimCenter
        } else {
            EyeState::Idle
        },
        EyeState::Moved(d) => if timer % HOLD_FRAMES == 0 {
            EyeState::Idle
        } else {
            EyeState::Moved(d)
        },
        EyeState::SmallPupil => if timer % (3 * HOLD_FRAMES) == 0 {
            EyeState::Closed
        } else {
            EyeState::SmallPupil
        },
        EyeState::Closed => if timer % HOLD_FRAMES == 0 {
            EyeState::HalfLid
        } else {
            EyeState::Closed
        },
        EyeState::HalfLid => if timer % (5 * HOLD_FRAMES) == 0 {
            EyeState::Idle
        } else {
            EyeState::HalfLid
        },
        EyeState::NarrowAnimCenter => if timer % (4 * HOLD_FRAMES) == 0 {
            EyeState::NarrowAnimRight
        } else if timer % (4 * HOLD_FRAMES) == 2 * HOLD_FRAMES {
            EyeState::NarrowAnimLeft
        } else {
            EyeState::NarrowAnimCenter
        },
        EyeState::NarrowAnimLeft => if timer % HOLD_FRAMES == 0 {
            EyeState::NarrowAnimCenter
        } else {
            EyeState::NarrowAnimLeft
        },
        EyeState::NarrowAnimRight => if timer % HOLD_FRAMES == 0 {
            EyeState::NarrowAnimCenter
        } else {
            EyeState::NarrowAnimRight
        },
    }
}

/// The absolute value of one sub-tile offset axis.
pub open spec fn spec_abs_offset(v: SubTileOffset) -> int {
    if v >= 0 {
        v as int
    } else {
        -(v as int)
    }
}

/// Grid clamp: one step never moves the eye outside the grid, whatever the
/// intent, the timer, or the starting cell; so repeated moves in one
/// direction stay within `[0, 15]` on both axes.
pub proof fn lemma_step_stays_in_grid(e: Eye, input: Input, timer: u16)
    requires
        e.wf(),
    ensures
        spec_eye_step(e, input, timer).wf(),
        spec_eye_step(e, input, timer).xy.x.0 <= 15,
        spec_eye_step(e, input, timer).xy.y.0 <= 15,
{
}

/// Grid clamp over a whole run: after any number of steps under any one
/// intent and timer value, the eye is still on a valid grid cell.
pub proof fn lemma_steps_stay_in_grid(e: Eye, input: Input, timer: u16, n: nat)
    requires
        e.wf(),
    ensures
        spec_eye_steps(e, input, timer, n).wf(),
        spec_eye_steps(e, input, timer, n).xy.x.0 <= 15,
        spec_eye_steps(e, input, timer, n).xy.y.0 <= 15,
    decreases n,
{
    if n > 0 {
        lemma_steps_stay_in_grid(e, input, timer, (n - 1) as nat);
        lemma_step_stays_in_grid(spec_eye_steps(e, input, timer, (n - 1) as nat), input, timer);
    }
}

/// Glide decay: while some axis is nonzero, one step leaves position and
/// animation state alone (no input is accepted) and shrinks each nonzero
/// axis' magnitude by exactly one, never overshooting past zero; an axis
/// already at rest stays at rest.
pub proof fn lemma_glide_decay(e: Eye, input: Input, timer: u16)
    requires
        e.wf(),
        !e.offset.spec_is_zero(),
    ensures
        spec_eye_step(e, input, timer).xy == e.xy,
        spec_eye_step(e, input, timer).state == e.state,
        e.offset.x != 0 ==> spec_abs_offset(spec_eye_step(e, input, timer).offset.x)
            == spec_abs_offset(e.offset.x) - 1,
        e.offset.y != 0 ==> spec_abs_offset(spec_eye_step(e, input, timer).offset.y)
            == spec_abs_offset(e.offset.y) - 1,
        e.offset.x > 0 ==> spec_eye_step(e, input, timer).offset.x >= 0,
        e.offset.x < 0 ==> spec_eye_step(e, input, timer).offset.x <= 0,
        e.offset.y > 0 ==> spec_eye_step(e, input, timer).offset.y >= 0,
        e.offset.y < 0 ==> spec_eye_step(e, input, timer).offset.y <= 0,
        e.offset.x == 0 ==> spec_eye_step(e, input, timer).offset.x == 0,
        e.offset.y == 0 ==> spec_eye_step(e, input, timer).offset.y == 0,
{
}

/// Interact overrides the timer: with no glide pending, an interact intent
/// transitions to `SmallPupil` immediately, from any state and at any timer
/// value, and moves nothing.
pub proof fn lemma_interact_overrides_timer(e: Eye, timer: u16)
    requires
        e.wf(),
        e.offset.spec_is_zero(),
    ensures
        spec_eye_step(e, Input::Interact, timer).state == EyeState::SmallPupil,
        spec_eye_step(e, Input::Interact, timer).xy == e.xy,
        spec_eye_step(e, Input::Interact, timer).offset == e.offset,
{
}


/// How many more simulation steps a glide needs before both axes are at
/// rest: the larger of the two magnitudes.
pub open spec fn spec_glide_len(o: SubTileOffsets) -> nat {
    let ax = spec_abs_offset(o.x);
    let ay = spec_abs_offset(o.y);
    if ax >= ay {
        ax as nat
    } else {
        ay as nat
    }
}

/// A run of steps can be peeled from the front as well as from the back.
pub proof fn lemma_eye_steps_unfold_front(e: Eye, input: Input, timer: u16, n: nat)
    requires
        n > 0,
    ensures
        spec_eye_steps(e, input, timer, n) == spec_eye_steps(
            spec_eye_step(e, input, timer),
            input,
            timer,
            (n - 1) as nat,
        ),
    decreases n,
{
    reveal_with_fuel(spec_eye_steps, 2);
    if n > 1 {
        lemma_eye_steps_unfold_front(e, input, timer, (n - 1) as nat);
    }
}

/// Glide decay runs to rest: after exactly as many no-overriding steps as
/// the larger offset magnitude, both axes are exactly zero, and neither the
/// position nor the animation state has changed along the way. Together with
/// the per-step law this rules out overshoot and oscillation.
pub proof fn lemma_glide_runs_to_rest(e: Eye, input: Input, timer: u16)
    ensures
        spec_eye_steps(e, input, timer, spec_glide_len(e.offset)).offset.spec_is_zero(),
        spec_eye_steps(e, input, timer, spec_glide_len(e.offset)).xy == e.xy,
        spec_eye_steps(e, input, timer, spec_glide_len(e.offset)).state == e.state,
    decreases spec_glide_len(e.offset),
{
    let n = spec_glide_len(e.offset);
    if n > 0 {
        let e1 = spec_eye_step(e, input, timer);
        assert(spec_glide_len(e1.offset) == n - 1);
        lemma_eye_steps_unfold_front(e, input, timer, n);
        lemma_glide_runs_to_rest(e1, input, timer);
    }
}

} // verus!
