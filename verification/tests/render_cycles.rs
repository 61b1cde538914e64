use eyemodelz::color::{adjust_lightness_rgb565, hex_to_rgb565, Rgb565};
use eyemodelz::controller::{AnimationMode, Controller, RandomDraw, SharedFrameState};
use eyemodelz::gaze::{EmotionExpression, GazeDirection};
use eyemodelz::palette::NamedColor;
use eyemodelz::render::{
    background_art, background_layers, eyeball_overlay_layers, inner_eye_layers, skin_color,
    BackgroundArt, CycleSkew, EyeRenderer, FrameNotice, Rendezvous, ShapeLayer, ShapeStyle,
};

fn frame(bg_dirty: bool, iris_dirty: bool) -> SharedFrameState {
    SharedFrameState {
        gaze_direction: GazeDirection::East,
        look_step: 2,
        iris_color: Rgb565::from_storage(0x18ff),
        emotion: EmotionExpression::Neutral,
        brightness_percent: 40,
        bg_dirty,
        iris_dirty,
    }
}

fn names(layers: &[ShapeLayer]) -> Vec<String> {
    layers.iter().map(|l| l.name.as_str().to_string()).collect()
}

#[test]
fn no_push_while_nothing_is_stale() {
    for is_left in [true, false] {
        let mut renderer = EyeRenderer::new(is_left);
        let first = renderer.begin_cycle(FrameNotice::Message(0), &frame(false, false));
        assert!(first.push);
        for n in 1..50usize {
            let plan = renderer.begin_cycle(FrameNotice::Message(n), &frame(false, false));
            assert!(!plan.push);
            assert!(!plan.draw_background);
            assert!(!plan.draw_eyeball);
            assert_eq!(plan.brightness_percent, 40);
        }
        let plan = renderer.begin_cycle(FrameNotice::Message(50), &frame(false, true));
        assert!(plan.push);
        let plan = renderer.begin_cycle(FrameNotice::Message(51), &frame(false, false));
        assert!(!plan.push);
        let plan = renderer.begin_cycle(FrameNotice::Message(52), &frame(true, false));
        assert!(plan.push);
        let plan = renderer.begin_cycle(FrameNotice::Message(53), &frame(false, false));
        assert!(!plan.push);
    }
}

#[test]
fn first_cycle_draws_everything() {
    let mut renderer = EyeRenderer::new(true);
    assert!(renderer.display_needs_push);
    assert_eq!(renderer.loaded_emotion, None);
    assert_eq!(renderer.cycle_count, 0);
    let plan = renderer.begin_cycle(FrameNotice::Message(0), &frame(false, false));
    assert!(plan.reload_background);
    assert!(plan.draw_background && plan.draw_eyeball && plan.push);
    assert!(!renderer.display_needs_push);
    assert_eq!(renderer.loaded_emotion, Some(EmotionExpression::Neutral));
    assert_eq!(renderer.cycle_count, 1);
}

#[test]
fn stale_iris_redraws_the_eyeball_only() {
    let mut renderer = EyeRenderer::new(false);
    renderer.begin_cycle(FrameNotice::Message(0), &frame(true, true));
    let plan = renderer.begin_cycle(FrameNotice::Message(1), &frame(false, true));
    assert!(!plan.draw_background);
    assert!(plan.draw_eyeball);
    assert!(plan.push);
    assert!(!plan.reload_background);
}

#[test]
fn stale_background_redraws_the_eyeball_too() {
    let mut renderer = EyeRenderer::new(false);
    renderer.begin_cycle(FrameNotice::Message(0), &frame(true, true));
    let plan = renderer.begin_cycle(FrameNotice::Message(1), &frame(true, false));
    assert!(plan.draw_background);
    assert!(plan.draw_eyeball);
    assert!(plan.push);
}

#[test]
fn backlight_is_set_in_every_cycle() {
    let mut renderer = EyeRenderer::new(true);
    for b in [0u8, 5, 50, 100] {
        let mut f = frame(false, false);
        f.brightness_percent = b;
        let plan = renderer.begin_cycle(FrameNotice::Message(0), &f);
        assert_eq!(plan.brightness_percent, b);
    }
}

#[test]
fn background_art_is_looked_up_when_the_expression_changes() {
    let mut renderer = EyeRenderer::new(false);
    let neutral = frame(false, false);
    let mut startled = frame(false, false);
    startled.emotion = EmotionExpression::Surprise;
    let plan = renderer.begin_cycle(FrameNotice::Message(0), &neutral);
    assert!(plan.reload_background);
    assert_eq!(plan.background, Some(BackgroundArt::Gradient));
    assert_eq!(plan.skin_color, hex_to_rgb565(0x8EB34E));
    let plan = renderer.begin_cycle(FrameNotice::Message(1), &neutral);
    assert!(!plan.reload_background);
    let plan = renderer.begin_cycle(FrameNotice::Message(2), &startled);
    assert!(plan.reload_background);
    assert_eq!(plan.background, None);
    assert_eq!(plan.skin_color, NamedColor::Orange.color());
    let plan = renderer.begin_cycle(FrameNotice::Message(3), &startled);
    assert!(!plan.reload_background);
    let plan = renderer.begin_cycle(FrameNotice::Message(4), &neutral);
    assert!(plan.reload_background);
}

#[test]
fn only_the_right_neutral_eye_has_art() {
    assert_eq!(background_art(EmotionExpression::Neutral, false), Some(BackgroundArt::Gradient));
    assert_eq!(background_art(EmotionExpression::Neutral, true), None);
    assert_eq!(background_art(EmotionExpression::Surprise, false), None);
    assert_eq!(background_art(EmotionExpression::Surprise, true), None);
    assert_eq!(background_art(EmotionExpression::MaxCount, false), None);
}

#[test]
fn skin_takes_its_colour_from_the_expression() {
    assert_eq!(skin_color(EmotionExpression::Neutral), hex_to_rgb565(0x8EB34E));
    assert_eq!(skin_color(EmotionExpression::Surprise), NamedColor::Orange.color());
    assert_eq!(skin_color(EmotionExpression::MaxCount), NamedColor::BlueViolet.color());
}

#[test]
fn missed_announcements_are_reported() {
    let mut renderer = EyeRenderer::new(true);
    let plan = renderer.begin_cycle(FrameNotice::Message(7), &frame(false, false));
    assert_eq!(plan.missed_notices, 0);
    let plan = renderer.begin_cycle(FrameNotice::Lagged(3), &frame(false, true));
    assert_eq!(plan.missed_notices, 3);
    assert!(plan.push);
    assert_eq!(renderer.cycle_count, 2);
}

#[test]
fn left_eye_leads_the_rendezvous() {
    let mut left = EyeRenderer::new(true);
    let mut right = EyeRenderer::new(false);
    for n in 0..10usize {
        let f = frame(n % 3 == 0, n % 2 == 0);
        let lp = left.begin_cycle(FrameNotice::Message(n), &f);
        let rp = right.begin_cycle(FrameNotice::Message(n), &f);
        assert_eq!(lp.rendezvous, Rendezvous::AwaitFollower { expected: n + 1 });
        assert_eq!(rp.rendezvous, Rendezvous::SignalLeader { cycle: n + 1 });
        assert_eq!(left.check_follower(n + 1), None);
        assert_eq!(lp.push, rp.push);
    }
}

#[test]
fn skewed_cycle_counts_are_reported() {
    let mut left = EyeRenderer::new(true);
    left.begin_cycle(FrameNotice::Message(0), &frame(false, false));
    left.begin_cycle(FrameNotice::Message(1), &frame(false, false));
    assert_eq!(left.check_follower(2), None);
    assert_eq!(left.check_follower(1), Some(CycleSkew { leader: 2, follower: 1 }));
    assert_eq!(left.check_follower(3), Some(CycleSkew { leader: 2, follower: 3 }));
}

#[test]
fn background_shapes_in_order() {
    let left = background_layers(true);
    assert_eq!(names(&left), vec!["grande_ellipse", "eyebrow"]);
    let black = NamedColor::Black.color();
    assert_eq!(
        left[0].style,
        ShapeStyle {
            fill_color: NamedColor::LightGreen.color(),
            stroke_color: Some(black),
            stroke_width: 0
        }
    );
    assert_eq!(
        left[1].style,
        ShapeStyle { fill_color: black, stroke_color: Some(black), stroke_width: 1 }
    );
    let right = background_layers(false);
    assert_eq!(names(&right), vec!["eyebrow"]);
    assert_eq!(right[0].style, left[1].style);
}

#[test]
fn eyeball_shapes_in_order() {
    let iris = Rgb565::new(10, 20, 31);
    let layers = inner_eye_layers(GazeDirection::East, 2, iris);
    assert_eq!(
        names(&layers),
        vec![
            "sclera",
            "iris_11_1_12",
            "iris_shadow_top_11_1_12",
            "pupil_11_1_12",
            "glint_lg_11_1_12",
            "glint_sm_11_1_12"
        ]
    );
    let darker = adjust_lightness_rgb565(iris, 230);
    assert_eq!((darker.r(), darker.g(), darker.b()), (8, 17, 27));
    assert_eq!(layers[0].style, ShapeStyle::with_fill(hex_to_rgb565(0xf4eed7)));
    assert_eq!(
        layers[1].style,
        ShapeStyle { fill_color: iris, stroke_color: Some(darker), stroke_width: 1 }
    );
    assert_eq!(layers[2].style, ShapeStyle::with_fill(darker));
    assert_eq!(layers[3].style, ShapeStyle::with_fill(Rgb565::from_storage(0)));
    assert_eq!(layers[4].style, ShapeStyle::with_fill(Rgb565::from_storage(0xFFFF)));
    assert_eq!(layers[5].style, ShapeStyle::with_fill(Rgb565::from_storage(0xFFFF)));
}

#[test]
fn eyeball_shapes_follow_the_gaze() {
    assert_eq!(
        names(&inner_eye_layers(GazeDirection::StraightAhead, 0, Rgb565::new(1, 1, 1)))[1..],
        ["iris_11", "iris_shadow_top_11", "pupil_11", "glint_lg_11", "glint_sm_11"]
    );
    assert_eq!(
        names(&inner_eye_layers(GazeDirection::NorthWest, 3, Rgb565::new(1, 1, 1)))[1..],
        ["iris_00", "iris_shadow_top_00", "pupil_00", "glint_lg_00", "glint_sm_00"]
    );
    assert_eq!(
        names(&inner_eye_layers(GazeDirection::South, 1, Rgb565::new(1, 1, 1)))[1..],
        [
            "iris_11_0_21",
            "iris_shadow_top_11_0_21",
            "pupil_11_0_21",
            "glint_lg_11_0_21",
            "glint_sm_11_0_21"
        ]
    );
}

#[test]
fn overlay_shapes_in_order() {
    let skin = hex_to_rgb565(0x8EB34E);
    let layers = eyeball_overlay_layers(skin);
    assert_eq!(
        names(&layers),
        vec![
            "upper_lid_shadow_neutral",
            "upper_lid_shine_11",
            "upper_lid_11",
            "lower_lid_bulge_11",
            "lower_lid_shine_11"
        ]
    );
    let lid = hex_to_rgb565(0x73369a);
    let black = NamedColor::Black.color();
    assert_eq!(layers[0].style, ShapeStyle::with_fill(hex_to_rgb565(0x1d1c4f)));
    assert_eq!(
        layers[1].style,
        ShapeStyle::with_fill_and_stroke(
            adjust_lightness_rgb565(lid, 307),
            adjust_lightness_rgb565(lid, 179),
            2
        )
    );
    assert_eq!(layers[2].style, ShapeStyle::with_fill(lid));
    assert_eq!(
        layers[3].style,
        ShapeStyle::with_fill_and_stroke(adjust_lightness_rgb565(skin, 204), black, 1)
    );
    assert_eq!(
        layers[4].style,
        ShapeStyle::with_fill_and_stroke(adjust_lightness_rgb565(skin, 307), black, 1)
    );
}

#[test]
fn styles_are_built_from_their_parts() {
    let a = Rgb565::new(1, 2, 3);
    let b = Rgb565::new(4, 5, 6);
    assert_eq!(
        ShapeStyle::with_fill(a),
        ShapeStyle { fill_color: a, stroke_color: None, stroke_width: 0 }
    );
    assert_eq!(
        ShapeStyle::with_fill_and_stroke(a, b, 3),
        ShapeStyle { fill_color: a, stroke_color: Some(b), stroke_width: 3 }
    );
}

#[test]
fn both_eyes_follow_the_controller_in_lockstep() {
    let draw = RandomDraw { red: 3, green: 4, blue: 5, gaze_count: 6 };
    let mut controller = Controller::new();
    let mut left = EyeRenderer::new(true);
    let mut right = EyeRenderer::new(false);
    let mut pushes = 0;
    for n in 0..40usize {
        let mode = if n < 20 { AnimationMode::HStep } else { AnimationMode::VSweep };
        let update = controller.tick(mode.to_primitive(), (n / 8) as u8, &draw);
        let state = SharedFrameState::decode(&update.state.encode()).unwrap();
        let lp = left.begin_cycle(FrameNotice::Message(update.frame_counter), &state);
        let rp = right.begin_cycle(FrameNotice::Message(update.frame_counter), &state);
        assert_eq!(lp.push, state.bg_dirty || state.iris_dirty || n == 0);
        assert_eq!(lp.push, rp.push);
        if lp.push {
            pushes += 1;
            let layers = inner_eye_layers(state.gaze_direction, state.look_step, state.iris_color);
            assert_eq!(layers.len(), 6);
        }
        if let Rendezvous::SignalLeader { cycle } = rp.rendezvous {
            assert_eq!(left.check_follower(cycle), None);
        } else {
            panic!("the right eye signals");
        }
    }
    assert_eq!(pushes, 3 + 20);
}

#[test]
fn overlay_is_drawn_after_the_eyeball() {
    let iris = Rgb565::new(10, 20, 31);
    let skin = NamedColor::Orange.color();
    let layers = eyemodelz::render::eyeball_layers(GazeDirection::North, 3, iris, skin);
    assert_eq!(
        names(&layers),
        vec![
            "sclera",
            "iris_01",
            "iris_shadow_top_01",
            "pupil_01",
            "glint_lg_01",
            "glint_sm_01",
            "upper_lid_shadow_neutral",
            "upper_lid_shine_11",
            "upper_lid_11",
            "lower_lid_bulge_11",
            "lower_lid_shine_11"
        ]
    );
    let inner = inner_eye_layers(GazeDirection::North, 3, iris);
    let over = eyeball_overlay_layers(skin);
    for (i, layer) in inner.iter().chain(over.iter()).enumerate() {
        assert_eq!(layers[i].name, layer.name);
        assert_eq!(layers[i].style, layer.style);
    }
}

#[test]
fn a_cycle_draws_its_stale_layers_back_to_front() {
    let mut renderer = EyeRenderer::new(true);
    let f = frame(false, false);
    let plan = renderer.begin_cycle(FrameNotice::Message(0), &f);
    let all = eyemodelz::render::planned_layers(&plan, true, &f);
    assert_eq!(all.len(), 2 + 6 + 5);
    assert_eq!(names(&all)[..3], ["grande_ellipse", "eyebrow", "sclera"]);
    assert_eq!(names(&all)[12], "lower_lid_shine_11");

    let plan = renderer.begin_cycle(FrameNotice::Message(1), &f);
    assert!(eyemodelz::render::planned_layers(&plan, true, &f).is_empty());

    let f = frame(false, true);
    let plan = renderer.begin_cycle(FrameNotice::Message(2), &f);
    let eyeball = eyemodelz::render::planned_layers(&plan, true, &f);
    assert_eq!(eyeball.len(), 11);
    assert_eq!(names(&eyeball)[0], "sclera");
    assert_eq!(names(&eyeball)[1], "iris_11_1_12");

    let f = frame(true, false);
    let plan = renderer.begin_cycle(FrameNotice::Message(3), &f);
    let right = eyemodelz::render::planned_layers(&plan, false, &f);
    assert_eq!(right.len(), 1 + 11);
    assert_eq!(names(&right)[..2], ["eyebrow", "sclera"]);
}
