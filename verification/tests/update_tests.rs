//! Update loop tests: the command stream, fixed-timestep stepping, timer
//! wrap, and whole-session determinism.

use game::commands::{Command, CommandBuffer, SpriteKind, TextContent};
use game::eye::EyeState;
use game::input::{Input, INPUT_INTERACT_PRESSED, INPUT_RIGHT_DOWN, INPUT_UP_DOWN};
use game::state::{update, State, ANIMATION_TIMER_LENGTH};
use game::tile::{i_to_xy, Dir};

const SEED: [u8; 16] = [9u8, 9, 9, 9, 0, 0, 0, 0, 0, 0, 0, 0, 0, 0, 0, 0];

/// The whole number of fixed-length simulation steps a wall-clock delta
/// contains; the remainder is discarded within the call.
fn steps_for_delta(delta_seconds: f32) -> u32 {
    let step_length = 1.0f32 / 240.0;
    (delta_seconds / step_length) as u32
}

#[test]
fn update_emits_full_command_stream() {
    let mut state = State::from_seed(SEED);
    let mut commands = CommandBuffer::new();
    update(&mut state, &mut commands, 0, 0);
    // 256 tile sprites, the eye sprite, and two text blocks.
    assert_eq!(commands.commands.len(), 259);
    for i in 0..256usize {
        let td = state.board.tiles.tiles[i];
        match commands.commands[i] {
            Command::Sprite(s) => {
                assert_eq!(s.sprite, SpriteKind::Arrow(td.dir, td.arrow_kind));
                assert_eq!(s.xy, i_to_xy(i));
                assert_eq!((s.offset.x, s.offset.y), (0, 0));
            },
            Command::Text(_) => panic!("tile command {} is not a sprite", i),
        }
    }
    match commands.commands[256] {
        Command::Sprite(s) => {
            assert_eq!(s.sprite, SpriteKind::Eye(state.eye.state));
            assert_eq!(s.xy, state.eye.xy);
        },
        Command::Text(_) => panic!("eye command is not a sprite"),
    }
    match commands.commands[257] {
        Command::Text(t) => assert_eq!(t.content, TextContent::InputStatus(Input::NoChange)),
        Command::Sprite(_) => panic!("first text block is a sprite"),
    }
    match commands.commands[258] {
        // The debug dump shows the timer before this call's tick.
        Command::Text(t) => assert_eq!(t.content, TextContent::TimerStatus(0)),
        Command::Sprite(_) => panic!("second text block is a sprite"),
    }
}

#[test]
fn update_clears_the_sink_each_call() {
    let mut state = State::from_seed(SEED);
    let mut commands = CommandBuffer::new();
    update(&mut state, &mut commands, 0, 0);
    update(&mut state, &mut commands, 0, 0);
    assert_eq!(commands.commands.len(), 259);
}

#[test]
fn fixed_timestep_accumulation() {
    // A delta of 1/120 second contains exactly 2 steps of 1/240 second; a
    // delta of 1/500 second contains 0 and its remainder is discarded.
    assert_eq!(steps_for_delta(1.0 / 120.0), 2);
    assert_eq!(steps_for_delta(1.0 / 500.0), 0);

    // Two steps really run: a move on the first step leaves a glide that
    // the second step decays by exactly one unit.
    let mut state = State::from_seed(SEED);
    let mut commands = CommandBuffer::new();
    update(
        &mut state,
        &mut commands,
        INPUT_UP_DOWN | INPUT_RIGHT_DOWN,
        steps_for_delta(1.0 / 120.0),
    );
    assert_eq!((state.eye.xy.x.0, state.eye.xy.y.0), (1, 0));
    assert_eq!((state.eye.offset.x, state.eye.offset.y), (-15, 0));
    assert_eq!(state.eye.state, EyeState::Moved(Dir::UpRight));
    // The timer ticks once per call, not once per step.
    assert_eq!(state.animation_timer, 1);

    // Zero steps change nothing but the timer.
    let mut idle = State::from_seed(SEED);
    update(&mut idle, &mut commands, INPUT_UP_DOWN, steps_for_delta(1.0 / 500.0));
    assert_eq!((idle.eye.xy.x.0, idle.eye.xy.y.0), (0, 0));
    assert_eq!(idle.eye.state, EyeState::Idle);
    assert_eq!(idle.animation_timer, 1);
}

#[test]
fn interact_reaches_small_pupil_through_update() {
    let mut state = State::from_seed(SEED);
    let mut commands = CommandBuffer::new();
    update(&mut state, &mut commands, INPUT_INTERACT_PRESSED, 1);
    assert_eq!(state.eye.state, EyeState::SmallPupil);
}

#[test]
fn animation_timer_wraps_at_modulus() {
    let mut state = State::from_seed(SEED);
    let mut commands = CommandBuffer::new();
    state.animation_timer = ANIMATION_TIMER_LENGTH - 1;
    update(&mut state, &mut commands, 0, 0);
    assert_eq!(state.animation_timer, 0);
    update(&mut state, &mut commands, 0, 0);
    assert_eq!(state.animation_timer, 1);
}

#[test]
fn sessions_are_deterministic() {
    // Two independently constructed sessions fed the identical input and
    // step sequence stay bit-identical throughout.
    let mut a = State::from_seed(SEED);
    let mut b = State::from_seed(SEED);
    let mut a_cmds = CommandBuffer::new();
    let mut b_cmds = CommandBuffer::new();
    let script: [(u16, u32); 8] = [
        (INPUT_RIGHT_DOWN, 2),
        (0, 20),
        (INPUT_UP_DOWN | INPUT_RIGHT_DOWN, 1),
        (0, 40),
        (INPUT_INTERACT_PRESSED, 1),
        (0, 3),
        (INPUT_UP_DOWN, 5),
        (0, 100),
    ];
    for (flags, steps) in script {
        update(&mut a, &mut a_cmds, flags, steps);
        update(&mut b, &mut b_cmds, flags, steps);
        assert_eq!(a.board.tiles.tiles, b.board.tiles.tiles);
        assert_eq!(a.eye, b.eye);
        assert_eq!(a.animation_timer, b.animation_timer);
        assert_eq!(a_cmds.commands, b_cmds.commands);
    }
}

#[test]
fn update_uses_one_intent_for_all_steps() {
    // The flags are decoded once per call: a held direction does not
    // re-trigger a move mid-glide within the same call.
    let mut state = State::from_seed(SEED);
    let mut commands = CommandBuffer::new();
    update(&mut state, &mut commands, INPUT_RIGHT_DOWN, 17);
    // Step 1 moves (offset -16), steps 2..17 decay the glide by 16.
    assert_eq!((state.eye.xy.x.0, state.eye.xy.y.0), (1, 0));
    assert_eq!((state.eye.offset.x, state.eye.offset.y), (0, 0));
}
