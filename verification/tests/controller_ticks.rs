use eyemodelz::color::{hex_to_rgb565, Rgb565};
use eyemodelz::controller::{
    brightness_step_for_gap, next_mode_a_value, next_mode_b_value, ramp_brightness,
    AnimationMode, Controller, FrameUpdate, RandomDraw, RawFrameState, SharedFrameState,
    INITIAL_BRIGHTNESS_PERCENT, INTERFRAME_DELAY_MILLIS, MAX_BRIGHTNESS_PERCENT,
    MAX_FRAME_GAP_MILLIS, MAX_MODE_B_COUNT, MIN_BRIGHTNESS_PERCENT, NUM_ANIMATION_MODES,
};
use eyemodelz::gaze::{EmotionExpression, GazeDirection};
use eyemodelz::palette::{NamedColor, IRIS_PALETTE_PURPLE};

const MODES: [AnimationMode; 9] = [
    AnimationMode::ClockStar,
    AnimationMode::HStep,
    AnimationMode::VStep,
    AnimationMode::HSweep,
    AnimationMode::VSweep,
    AnimationMode::SurpriseHSweep,
    AnimationMode::Meander,
    AnimationMode::SlowRandMeander,
    AnimationMode::Randomize,
];

const NO_DRAW: RandomDraw = RandomDraw { red: 0, green: 0, blue: 0, gaze_count: 0 };

fn run(controller: &mut Controller, mode: AnimationMode, mode_b: u8) -> FrameUpdate {
    controller.tick(mode.to_primitive(), mode_b, &NO_DRAW)
}

#[test]
fn horizontal_sweep_mode_reproduces_the_traversal() {
    let w = GazeDirection::West;
    let e = GazeDirection::East;
    let c = GazeDirection::StraightAhead;
    let expected = [
        (c, 0),
        (w, 1),
        (w, 2),
        (w, 3),
        (w, 2),
        (w, 1),
        (c, 0),
        (c, 0),
        (e, 1),
        (e, 2),
        (e, 3),
        (e, 2),
        (e, 1),
        (c, 0),
        (c, 0),
    ];
    let mut controller = Controller::new();
    for (counter, want) in expected.iter().enumerate() {
        let update = run(&mut controller, AnimationMode::HSweep, 4);
        assert_eq!(update.frame_counter, counter);
        assert_eq!((update.state.gaze_direction, update.state.look_step), *want);
        assert_eq!(
            (update.state.gaze_direction, update.state.look_step),
            GazeDirection::gaze_and_step_for_arm_order(counter, &[w, e])
        );
        assert!(update.state.iris_dirty);
        assert_eq!(update.state.iris_color, NamedColor::DarkTurquoise.color());
        assert_eq!(update.state.emotion, EmotionExpression::Neutral);
        assert_eq!(update.sleep_millis, 120);
    }
    assert_eq!(controller.frame_counter, 15);
}

#[test]
fn controller_starts_centred_at_half_brightness() {
    let controller = Controller::new();
    assert_eq!(controller.frame_counter, 0);
    assert_eq!(controller.brightness_percent, INITIAL_BRIGHTNESS_PERCENT);
    assert_eq!(controller.brightness_percent, 50);
    assert!(controller.brightness_ascending);
    assert_eq!(controller.last_mode, None);
    assert_eq!(controller.last_mode_b, None);
    assert_eq!(controller.gaze_direction, GazeDirection::StraightAhead);
    assert_eq!(controller.look_step, 0);
}

#[test]
fn first_tick_marks_everything_stale() {
    for mode in MODES {
        let mut controller = Controller::new();
        let update = run(&mut controller, mode, 255);
        assert!(update.state.bg_dirty);
        assert!(update.state.iris_dirty);
        assert_eq!(update.frame_counter, 0);
        assert_eq!(controller.frame_counter, 1);
    }
}

#[test]
fn background_is_stale_only_when_the_mode_changes() {
    let mut controller = Controller::new();
    assert!(run(&mut controller, AnimationMode::HSweep, 0).state.bg_dirty);
    assert!(!run(&mut controller, AnimationMode::HSweep, 0).state.bg_dirty);
    assert!(!run(&mut controller, AnimationMode::HSweep, 1).state.bg_dirty);
    let update = run(&mut controller, AnimationMode::SurpriseHSweep, 1);
    assert!(update.state.bg_dirty && update.state.iris_dirty);
    assert_eq!(update.state.emotion, EmotionExpression::Surprise);
    assert!(!run(&mut controller, AnimationMode::SurpriseHSweep, 1).state.bg_dirty);
    assert!(run(&mut controller, AnimationMode::Meander, 1).state.bg_dirty);
}

#[test]
fn stepped_modes_move_only_with_the_second_input() {
    let mut controller = Controller::new();
    let first = run(&mut controller, AnimationMode::HStep, 3);
    assert!(first.state.iris_dirty);
    assert_eq!((first.state.gaze_direction, first.state.look_step), (GazeDirection::West, 3));
    for _ in 0..5 {
        let same = run(&mut controller, AnimationMode::HStep, 3);
        assert!(!same.state.iris_dirty);
        assert!(!same.state.bg_dirty);
        assert_eq!((same.state.gaze_direction, same.state.look_step), (GazeDirection::West, 3));
        assert_eq!(same.state.iris_color, first.state.iris_color);
    }
    let moved = run(&mut controller, AnimationMode::HStep, 9);
    assert!(moved.state.iris_dirty);
    assert!(!moved.state.bg_dirty);
    assert_eq!((moved.state.gaze_direction, moved.state.look_step), (GazeDirection::East, 2));
    let vertical = run(&mut controller, AnimationMode::VStep, 9);
    assert!(vertical.state.iris_dirty && vertical.state.bg_dirty);
    assert_eq!((vertical.state.gaze_direction, vertical.state.look_step), (GazeDirection::South, 2));
    let wrapped = run(&mut controller, AnimationMode::VStep, 14 + 3);
    assert_eq!((wrapped.state.gaze_direction, wrapped.state.look_step), (GazeDirection::North, 3));
}

#[test]
fn stepped_modes_hold_brightness_at_their_own_level() {
    let mut controller = Controller::new();
    for _ in 0..4 {
        let update = run(&mut controller, AnimationMode::HStep, 0);
        assert_eq!(update.state.brightness_percent, 75 - 4);
        assert_eq!(update.sleep_millis, 240);
    }
    assert!(!controller.brightness_ascending);
    for _ in 0..4 {
        let update = run(&mut controller, AnimationMode::Meander, 0);
        assert_eq!(update.state.brightness_percent, 75 - 2);
        assert_eq!(update.sleep_millis, 120);
    }
    for _ in 0..4 {
        let update = run(&mut controller, AnimationMode::SurpriseHSweep, 0);
        assert_eq!(update.state.brightness_percent, 92);
    }
    assert!(controller.brightness_ascending);
}

#[test]
fn sweep_modes_fade_between_the_bounds() {
    let mut controller = Controller::new();
    let mut seen = Vec::new();
    for _ in 0..200 {
        let update = run(&mut controller, AnimationMode::VSweep, 0);
        let b = update.state.brightness_percent;
        assert!(b >= MIN_BRIGHTNESS_PERCENT && b <= MAX_BRIGHTNESS_PERCENT);
        assert_eq!(b, controller.brightness_percent);
        seen.push(b);
    }
    assert_eq!(&seen[..4], &[52, 54, 56, 58]);
    assert_eq!(seen[24], 100);
    assert_eq!(seen[25], 98);
    assert!(seen.contains(&5));
    let at_floor = seen.iter().position(|b| *b == 5).unwrap();
    assert_eq!(seen[at_floor + 1], 7);
    assert_eq!(seen[at_floor - 1], 6);
}

#[test]
fn brightness_step_scales_with_the_pace() {
    assert_eq!(brightness_step_for_gap(60), 1);
    assert_eq!(brightness_step_for_gap(120), 2);
    assert_eq!(brightness_step_for_gap(240), 4);
    assert_eq!(brightness_step_for_gap(0), 1);
    assert_eq!(brightness_step_for_gap(49), 1);
    assert_eq!(brightness_step_for_gap(50), 1);
    assert_eq!(brightness_step_for_gap(99), 1);
    assert_eq!(brightness_step_for_gap(100), 2);
    assert_eq!(brightness_step_for_gap(5000), 100);
    assert_eq!(brightness_step_for_gap(MAX_FRAME_GAP_MILLIS), 255);
    assert_eq!(INTERFRAME_DELAY_MILLIS, 120);
}

#[test]
fn ramp_turns_round_at_the_bounds() {
    assert_eq!(ramp_brightness(50, true, 2), (52, true));
    assert_eq!(ramp_brightness(98, true, 2), (100, false));
    assert_eq!(ramp_brightness(97, true, 2), (99, true));
    assert_eq!(ramp_brightness(99, true, 2), (100, false));
    assert_eq!(ramp_brightness(100, true, 0), (100, false));
    assert_eq!(ramp_brightness(100, false, 2), (98, false));
    assert_eq!(ramp_brightness(8, false, 2), (6, false));
    assert_eq!(ramp_brightness(7, false, 2), (5, true));
    assert_eq!(ramp_brightness(6, false, 2), (5, true));
    assert_eq!(ramp_brightness(5, false, 2), (5, true));
    assert_eq!(ramp_brightness(5, true, 2), (7, true));
    assert_eq!(ramp_brightness(50, false, 255), (5, true));
    assert_eq!(ramp_brightness(50, true, 255), (100, false));
}

#[test]
fn mode_input_is_taken_modulo_the_number_of_modes() {
    assert_eq!(NUM_ANIMATION_MODES, 9);
    for raw in 0..=255u8 {
        let mode = AnimationMode::from_wrapped(raw);
        assert_eq!(mode, MODES[(raw % 9) as usize]);
        assert_eq!(mode.to_primitive(), raw % 9);
    }
    let mut wrapped = Controller::new();
    let mut plain = Controller::new();
    for _ in 0..20 {
        let a = wrapped.tick(3 + 9 * 7, 2, &NO_DRAW);
        let b = plain.tick(3, 2, &NO_DRAW);
        assert_eq!(a, b);
    }
    assert_eq!(wrapped, plain);
}

#[test]
fn mode_button_steps_through_all_modes() {
    let mut raw = 0u8;
    let mut visited = Vec::new();
    for _ in 0..9 {
        visited.push(AnimationMode::from_wrapped(raw));
        raw = next_mode_a_value(raw);
    }
    assert_eq!(visited, MODES.to_vec());
    assert_eq!(raw, 0);
    assert_eq!(next_mode_a_value(8), 0);
    assert_eq!(next_mode_a_value(255), 4);
    for (i, mode) in MODES.iter().enumerate() {
        assert_eq!(mode.next(), MODES[(i + 1) % 9]);
    }
}

#[test]
fn second_mode_button_steps_through_a_sweep() {
    assert_eq!(MAX_MODE_B_COUNT, 14);
    assert_eq!(MAX_MODE_B_COUNT as usize, GazeDirection::NUM_FULL_SWEEP_STEPS);
    assert_eq!(next_mode_b_value(0), 1);
    assert_eq!(next_mode_b_value(12), 13);
    assert_eq!(next_mode_b_value(13), 0);
    assert_eq!(next_mode_b_value(255), (256 % 14) as u8);
}

#[test]
fn modes_have_their_colours_paces_and_expressions() {
    let table = [
        (AnimationMode::ClockStar, Some(NamedColor::DeepSkyBlue), 240, EmotionExpression::Neutral),
        (AnimationMode::HStep, Some(NamedColor::SlateGray), 240, EmotionExpression::Neutral),
        (AnimationMode::VStep, Some(NamedColor::LimeGreen), 240, EmotionExpression::Neutral),
        (AnimationMode::HSweep, Some(NamedColor::DarkTurquoise), 120, EmotionExpression::Neutral),
        (AnimationMode::VSweep, Some(NamedColor::Goldenrod), 120, EmotionExpression::Neutral),
        (AnimationMode::SurpriseHSweep, None, 120, EmotionExpression::Surprise),
        (AnimationMode::Meander, None, 120, EmotionExpression::Neutral),
        (AnimationMode::SlowRandMeander, Some(NamedColor::Chocolate), 240, EmotionExpression::Neutral),
        (AnimationMode::Randomize, None, 60, EmotionExpression::Neutral),
    ];
    for (mode, color, gap, emotion) in table {
        assert_eq!(mode.frame_gap_millis(), gap);
        assert_eq!(mode.emotion(), emotion);
        if let Some(named) = color {
            assert_eq!(mode.iris_color(17, &NO_DRAW), named.color());
        }
        assert_eq!(mode.freezes_gaze(), mode == AnimationMode::HStep || mode == AnimationMode::VStep);
        assert_eq!(
            mode.draws_random_gaze(),
            mode == AnimationMode::SlowRandMeander || mode == AnimationMode::Randomize
        );
        assert_eq!(mode.draws_random_color(), mode == AnimationMode::Randomize);
    }
    assert_eq!(AnimationMode::Meander.iris_color(0, &NO_DRAW), hex_to_rgb565(0x405D80));
}

#[test]
fn startled_iris_cycles_through_the_purples() {
    let mut controller = Controller::new();
    for counter in 0..24usize {
        let update = run(&mut controller, AnimationMode::SurpriseHSweep, 0);
        assert_eq!(update.state.iris_color, IRIS_PALETTE_PURPLE[counter % 8].color());
    }
}

#[test]
fn random_modes_use_the_draw() {
    let draw = RandomDraw { red: 0xFF, green: 0x47, blue: 0x21, gaze_count: 31 };
    let mut controller = Controller::new();
    for _ in 0..3 {
        let update = controller.tick(AnimationMode::Randomize.to_primitive(), 0, &draw);
        assert_eq!(update.state.iris_color, Rgb565::new(0xFF, 0x47, 0x21));
        assert_eq!((update.state.iris_color.r(), update.state.iris_color.g(), update.state.iris_color.b()), (31, 7, 1));
        assert_eq!(
            (update.state.gaze_direction, update.state.look_step),
            GazeDirection::gaze_and_look_for_meander(31)
        );
        assert_eq!((update.state.gaze_direction, update.state.look_step), (GazeDirection::East, 3));
        assert_eq!(update.sleep_millis, 60);
    }
    let update = controller.tick(AnimationMode::SlowRandMeander.to_primitive(), 0, &draw);
    assert_eq!(update.state.iris_color, NamedColor::Chocolate.color());
    assert_eq!((update.state.gaze_direction, update.state.look_step), (GazeDirection::East, 3));
    let other = RandomDraw { red: 1, green: 2, blue: 3, gaze_count: 0 };
    let update = controller.tick(AnimationMode::HSweep.to_primitive(), 0, &other);
    let again = {
        let mut copy = controller;
        copy.frame_counter -= 1;
        copy.last_mode = Some(AnimationMode::SlowRandMeander);
        copy.brightness_percent = 71;
        copy.brightness_ascending = false;
        copy.tick(AnimationMode::HSweep.to_primitive(), 0, &draw)
    };
    assert_eq!(update.state.gaze_direction, again.state.gaze_direction);
    assert_eq!(update.state.iris_color, again.state.iris_color);
}

#[test]
fn changes_between_ticks_are_always_flagged() {
    let draws = [
        NO_DRAW,
        RandomDraw { red: 9, green: 9, blue: 9, gaze_count: 10 },
        RandomDraw { red: 200, green: 100, blue: 50, gaze_count: 200 },
    ];
    let mut controller = Controller::new();
    let mut last: Option<SharedFrameState> = None;
    let mut n = 0usize;
    for round in 0..6 {
        for mode in MODES {
            for repeat in 0..3 {
                let mode_b = ((round + repeat / 2) % 3) as u8;
                let update = controller.tick(mode.to_primitive(), mode_b, &draws[n % 3]);
                n += 1;
                if let Some(before) = last {
                    let changed = before.gaze_direction != update.state.gaze_direction
                        || before.look_step != update.state.look_step
                        || before.iris_color != update.state.iris_color;
                    if changed {
                        assert!(update.state.iris_dirty);
                    }
                    if before.emotion != update.state.emotion {
                        assert!(update.state.bg_dirty);
                    }
                }
                assert!(update.state.look_step <= 3);
                assert_ne!(update.state.gaze_direction, GazeDirection::MaxCount);
                last = Some(update.state);
            }
        }
    }
}

#[test]
fn frame_state_before_the_first_tick() {
    let state = SharedFrameState::initial();
    assert_eq!(state.gaze_direction, GazeDirection::StraightAhead);
    assert_eq!(state.look_step, 0);
    assert_eq!(state.iris_color.into_storage(), 0x18ff);
    assert_eq!(state.emotion, EmotionExpression::Neutral);
    assert_eq!(state.brightness_percent, 50);
    assert!(state.bg_dirty && state.iris_dirty);
}

#[test]
fn frame_state_survives_its_plain_numbers() {
    let state = SharedFrameState {
        gaze_direction: GazeDirection::SouthWest,
        look_step: 2,
        iris_color: Rgb565::from_storage(0xBEEF),
        emotion: EmotionExpression::Surprise,
        brightness_percent: 93,
        bg_dirty: false,
        iris_dirty: true,
    };
    let raw = state.encode();
    assert_eq!(
        raw,
        RawFrameState {
            gaze_direction: 6,
            look_step: 2,
            iris_color: 0xBEEF,
            emotion: 1,
            brightness_percent: 93,
            bg_dirty: false,
            iris_dirty: true,
        }
    );
    assert_eq!(SharedFrameState::decode(&raw), Some(state));
    let mut controller = Controller::new();
    for mode in MODES {
        let update = run(&mut controller, mode, 5);
        assert_eq!(SharedFrameState::decode(&update.state.encode()), Some(update.state));
    }
}

#[test]
fn plain_numbers_out_of_range_are_no_frame_state() {
    let good = SharedFrameState::initial().encode();
    assert!(SharedFrameState::decode(&good).is_some());
    assert_eq!(SharedFrameState::decode(&RawFrameState { gaze_direction: 9, ..good }), None);
    assert_eq!(SharedFrameState::decode(&RawFrameState { gaze_direction: 200, ..good }), None);
    assert_eq!(SharedFrameState::decode(&RawFrameState { look_step: 4, ..good }), None);
    assert_eq!(SharedFrameState::decode(&RawFrameState { emotion: 2, ..good }), None);
    assert_eq!(SharedFrameState::decode(&RawFrameState { emotion: 3, ..good }), None);
    assert_eq!(SharedFrameState::decode(&RawFrameState { brightness_percent: 101, ..good }), None);
    assert!(SharedFrameState::decode(&RawFrameState { gaze_direction: 8, look_step: 3, emotion: 1, brightness_percent: 100, ..good }).is_some());
    assert!(SharedFrameState::decode(&RawFrameState { brightness_percent: 0, ..good }).is_some());
}

#[test]
fn only_sound_states_can_be_drawn_or_ticked() {
    let good = SharedFrameState::initial();
    assert!(good.can_be_drawn());
    assert!(!SharedFrameState { gaze_direction: GazeDirection::MaxCount, ..good }.can_be_drawn());
    assert!(!SharedFrameState { look_step: 4, ..good }.can_be_drawn());
    assert!(!SharedFrameState { emotion: EmotionExpression::MaxCount, ..good }.can_be_drawn());
    assert!(!SharedFrameState { brightness_percent: 101, ..good }.can_be_drawn());
    assert!(SharedFrameState { brightness_percent: 0, ..good }.can_be_drawn());

    let controller = Controller::new();
    assert!(controller.can_tick());
    assert!(!Controller { frame_counter: usize::MAX, ..controller }.can_tick());
    assert!(Controller { frame_counter: usize::MAX - 1, ..controller }.can_tick());
    assert!(!Controller { brightness_percent: 4, ..controller }.can_tick());
    assert!(!Controller { brightness_percent: 101, ..controller }.can_tick());
    assert!(!Controller { look_step: 4, ..controller }.can_tick());
    assert!(!Controller { gaze_direction: GazeDirection::MaxCount, ..controller }.can_tick());
    let mut last = Controller { frame_counter: usize::MAX - 1, ..controller };
    let update = last.tick(3, 0, &NO_DRAW);
    assert_eq!(update.frame_counter, usize::MAX - 1);
    assert_eq!(last.frame_counter, usize::MAX);
    assert!(!last.can_tick());
}
