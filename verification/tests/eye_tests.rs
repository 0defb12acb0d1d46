//! Eye state machine tests: movement, grid clamping, glide decay, the
//! timer-gated idle transitions, and input decoding.

use game::eye::{step, Eye, EyeState, SubTileOffsets};
use game::input::{
    Input, INPUT_DOWN_DOWN, INPUT_INTERACT_PRESSED, INPUT_LEFT_DOWN, INPUT_RIGHT_DOWN,
    INPUT_UP_DOWN, INPUT_UP_PRESSED,
};
use game::tile::{Dir, X, XY, Y};

fn eye_at(x: u8, y: u8) -> Eye {
    Eye {
        xy: XY { x: X(x), y: Y(y) },
        offset: SubTileOffsets { x: 0, y: 0 },
        state: EyeState::Idle,
    }
}

#[test]
fn input_priority_order() {
    assert_eq!(Input::from_flags(0), Input::NoChange);
    assert_eq!(Input::from_flags(INPUT_UP_PRESSED), Input::NoChange);
    assert_eq!(Input::from_flags(INPUT_UP_DOWN), Input::Dir(Dir::Up));
    assert_eq!(Input::from_flags(INPUT_DOWN_DOWN), Input::Dir(Dir::Down));
    assert_eq!(Input::from_flags(INPUT_LEFT_DOWN), Input::Dir(Dir::Left));
    assert_eq!(Input::from_flags(INPUT_RIGHT_DOWN), Input::Dir(Dir::Right));
    assert_eq!(
        Input::from_flags(INPUT_UP_DOWN | INPUT_RIGHT_DOWN),
        Input::Dir(Dir::UpRight)
    );
    assert_eq!(
        Input::from_flags(INPUT_DOWN_DOWN | INPUT_RIGHT_DOWN),
        Input::Dir(Dir::DownRight)
    );
    assert_eq!(
        Input::from_flags(INPUT_DOWN_DOWN | INPUT_LEFT_DOWN),
        Input::Dir(Dir::DownLeft)
    );
    assert_eq!(
        Input::from_flags(INPUT_UP_DOWN | INPUT_LEFT_DOWN),
        Input::Dir(Dir::UpLeft)
    );
    // The interact bit beats everything else.
    assert_eq!(
        Input::from_flags(INPUT_INTERACT_PRESSED | INPUT_UP_DOWN | INPUT_RIGHT_DOWN),
        Input::Interact
    );
    // A diagonal beats either of its single components.
    assert_eq!(
        Input::from_flags(INPUT_UP_DOWN | INPUT_DOWN_DOWN | INPUT_RIGHT_DOWN),
        Input::Dir(Dir::UpRight)
    );
}

#[test]
fn diagonal_intent_moves_both_axes() {
    // Up-and-right held together decodes to the diagonal and, from a
    // non-edge cell, moves both axes and sets both glide offsets with signs
    // opposite the travel.
    let input = Input::from_flags(INPUT_UP_DOWN | INPUT_RIGHT_DOWN);
    assert_eq!(input, Input::Dir(Dir::UpRight));
    let mut eye = eye_at(5, 5);
    step(&mut eye, input, 1);
    assert_eq!((eye.xy.x.0, eye.xy.y.0), (6, 4));
    assert_eq!(eye.offset.x, -16);
    assert_eq!(eye.offset.y, 16);
    assert_eq!(eye.state, EyeState::Moved(Dir::UpRight));
}

#[test]
fn axis_aligned_move_sets_one_offset() {
    let mut eye = eye_at(5, 5);
    step(&mut eye, Input::Dir(Dir::Right), 1);
    assert_eq!((eye.xy.x.0, eye.xy.y.0), (6, 5));
    assert_eq!(eye.offset.x, -16);
    assert_eq!(eye.offset.y, 0);

    let mut eye = eye_at(5, 5);
    step(&mut eye, Input::Dir(Dir::Down), 1);
    assert_eq!((eye.xy.x.0, eye.xy.y.0), (5, 6));
    assert_eq!(eye.offset.x, 0);
    assert_eq!(eye.offset.y, -16);
}

#[test]
fn edge_move_is_absorbed_but_counts_as_moved() {
    // At the boundary the position clamps, no offset is set on the clamped
    // axis, and the animation state still becomes Moved.
    let mut eye = eye_at(15, 0);
    step(&mut eye, Input::Dir(Dir::UpRight), 1);
    assert_eq!((eye.xy.x.0, eye.xy.y.0), (15, 0));
    assert_eq!(eye.offset, SubTileOffsets { x: 0, y: 0 });
    assert_eq!(eye.state, EyeState::Moved(Dir::UpRight));
}

#[test]
fn grid_clamp_in_every_direction() {
    // Repeatedly moving in one direction from any starting cell never
    // produces a coordinate outside the grid on either axis.
    for d in Dir::ALL {
        for sx in 0..16u8 {
            for sy in 0..16u8 {
                let mut eye = eye_at(sx, sy);
                for _ in 0..40 {
                    // Drain any glide first so every move is accepted.
                    while eye.offset != (SubTileOffsets { x: 0, y: 0 }) {
                        step(&mut eye, Input::NoChange, 1);
                    }
                    step(&mut eye, Input::Dir(d), 1);
                    assert!(eye.xy.x.0 <= 15, "x out of range going {:?}", d);
                    assert!(eye.xy.y.0 <= 15, "y out of range going {:?}", d);
                }
            }
        }
    }
}

#[test]
fn glide_decays_by_one_per_step_to_zero() {
    let mut eye = eye_at(5, 5);
    step(&mut eye, Input::Dir(Dir::UpRight), 1);
    assert_eq!((eye.offset.x, eye.offset.y), (-16, 16));
    for k in 1..=16i8 {
        // While the glide is pending, even a movement intent is ignored.
        step(&mut eye, Input::Dir(Dir::Down), 1);
        assert_eq!(eye.offset.x, -16 + k);
        assert_eq!(eye.offset.y, 16 - k);
        assert_eq!((eye.xy.x.0, eye.xy.y.0), (6, 4));
        assert_eq!(eye.state, EyeState::Moved(Dir::UpRight));
    }
    assert_eq!(eye.offset, SubTileOffsets { x: 0, y: 0 });
    // Exactly zero: one more no-input step leaves the offsets at rest and
    // only then consults the idle transition table.
    step(&mut eye, Input::NoChange, 1);
    assert_eq!(eye.offset, SubTileOffsets { x: 0, y: 0 });
}

#[test]
fn interact_overrides_timer() {
    // From Idle at any timer value, an interact intent transitions to
    // SmallPupil immediately, regardless of the timer's residue.
    for timer in [0u16, 1, 29, 30, 59, 60, 89, 90, 1234, 64799] {
        let mut eye = eye_at(3, 3);
        assert_eq!(eye.state, EyeState::Idle);
        step(&mut eye, Input::Interact, timer);
        assert_eq!(eye.state, EyeState::SmallPupil);
        assert_eq!((eye.xy.x.0, eye.xy.y.0), (3, 3));
    }
    // It also overrides from every other phase.
    let phases = [
        EyeState::Moved(Dir::Left),
        EyeState::NarrowAnimLeft,
        EyeState::NarrowAnimCenter,
        EyeState::NarrowAnimRight,
        EyeState::SmallPupil,
        EyeState::Closed,
        EyeState::HalfLid,
    ];
    for phase in phases {
        let mut eye = eye_at(3, 3);
        eye.state = phase;
        step(&mut eye, Input::Interact, 17);
        assert_eq!(eye.state, EyeState::SmallPupil);
    }
}

#[test]
fn idle_transition_table() {
    let tr = |s: EyeState, timer: u16| -> EyeState {
        let mut eye = eye_at(0, 0);
        eye.state = s;
        step(&mut eye, Input::NoChange, timer);
        eye.state
    };
    // Idle narrows every third hold length.
    assert_eq!(tr(EyeState::Idle, 0), EyeState::NarrowAnimCenter);
    assert_eq!(tr(EyeState::Idle, 90), EyeState::NarrowAnimCenter);
    assert_eq!(tr(EyeState::Idle, 30), EyeState::Idle);
    assert_eq!(tr(EyeState::Idle, 89), EyeState::Idle);
    // Moved relaxes to Idle after a hold length.
    assert_eq!(tr(EyeState::Moved(Dir::Up), 30), EyeState::Idle);
    assert_eq!(tr(EyeState::Moved(Dir::Up), 31), EyeState::Moved(Dir::Up));
    // SmallPupil closes, Closed half-opens, HalfLid returns to Idle.
    assert_eq!(tr(EyeState::SmallPupil, 90), EyeState::Closed);
    assert_eq!(tr(EyeState::SmallPupil, 60), EyeState::SmallPupil);
    assert_eq!(tr(EyeState::Closed, 60), EyeState::HalfLid);
    assert_eq!(tr(EyeState::Closed, 45), EyeState::Closed);
    assert_eq!(tr(EyeState::HalfLid, 150), EyeState::Idle);
    assert_eq!(tr(EyeState::HalfLid, 120), EyeState::HalfLid);
    // The narrow sweep: center goes right at one residue, left at another.
    assert_eq!(tr(EyeState::NarrowAnimCenter, 120), EyeState::NarrowAnimRight);
    assert_eq!(tr(EyeState::NarrowAnimCenter, 60), EyeState::NarrowAnimLeft);
    assert_eq!(tr(EyeState::NarrowAnimCenter, 30), EyeState::NarrowAnimCenter);
    assert_eq!(tr(EyeState::NarrowAnimLeft, 30), EyeState::NarrowAnimCenter);
    assert_eq!(tr(EyeState::NarrowAnimLeft, 31), EyeState::NarrowAnimLeft);
    assert_eq!(tr(EyeState::NarrowAnimRight, 60), EyeState::NarrowAnimCenter);
    assert_eq!(tr(EyeState::NarrowAnimRight, 61), EyeState::NarrowAnimRight);
}
