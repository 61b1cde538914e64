//! The render pipeline of one eye: what to draw in a cycle, in which order, and
//! whether to push the frame buffer.
//!
//! A renderer reads the shared frame state once for each frame that the controller
//! announces. It draws a layer again only where the layer is stale, pushes the
//! buffer only where something was drawn, and always sets the backlight. The two
//! eyes keep in step through a rendezvous that the left eye leads. Drawing, pushing
//! and waiting are the caller's; the decisions are made here.

use crate::asset::{
    asset_name, byte_len, id_text, lemma_byte_len_ascii, name_fits, plain_asset_name,
    stepped_asset_name,
};
use crate::color::{
    adjust_lightness_rgb565, adjusted, hex_to_rgb565, truncated_rgb565, Rgb565,
    FACTOR_BRIGHTEN_20, FACTOR_DARKEN_10, FACTOR_DARKEN_20, FACTOR_DARKEN_30,
};
use crate::controller::SharedFrameState;
use crate::gaze::{EmotionExpression, GazeDirection, LAST_LOOK_STEP_IDX};
use crate::palette::NamedColor;
use vstd::prelude::*;
use vstd::utf8::is_ascii_chars;

verus! {

/// The skin around a neutral eye, as `0xRRGGBB`.
pub const NEUTRAL_SKIN_HEX: u32 = 0x8EB34E;

/// The white of the eye, as `0xRRGGBB`.
pub const SCLERA_HEX: u32 = 0xf4eed7;

/// The skin of the upper lid, as `0xRRGGBB`.
pub const UPPER_LID_HEX: u32 = 0x73369a;

/// The shadow under the upper lid, as `0xRRGGBB`.
pub const UPPER_LID_SHADOW_HEX: u32 = 0x1d1c4f;

/// How a shape is painted: filled, and outlined where it has a stroke colour and a
/// stroke width above zero. The stroke is centred on the outline.
#[derive(Clone, Copy, Debug, PartialEq, Eq, Structural)]
pub struct ShapeStyle {
    /// The colour of the inside.
    pub fill_color: Rgb565,
    /// The colour of the outline, if any.
    pub stroke_color: Option<Rgb565>,
    /// The width of the outline in pixels.
    pub stroke_width: u32,
}

/// One shape to draw: the identifier of its outline and its style.
#[derive(Debug)]
pub struct ShapeLayer {
    /// The identifier under which the outline is stored.
    pub name: heapless::String<32>,
    /// How the shape is painted.
    pub style: ShapeStyle,
}

/// What a layer says: the text of its identifier and its style.
pub struct LayerSpec {
    pub name: Seq<char>,
    pub style: ShapeStyle,
}

impl View for ShapeLayer {
    type V = LayerSpec;

    open spec fn view(&self) -> LayerSpec {
        LayerSpec { name: id_text(self.name), style: self.style }
    }
}

/// What a list of layers says, layer by layer.
pub open spec fn layer_specs(layers: Seq<ShapeLayer>) -> Seq<LayerSpec> {
    layers.map_values(|layer: ShapeLayer| layer@)
}

/// The style of a shape that is filled and has no outline.
pub open spec fn filled(fill: Rgb565) -> ShapeStyle {
    ShapeStyle { fill_color: fill, stroke_color: None, stroke_width: 0 }
}

/// The style of a shape that is filled and outlined.
pub open spec fn outlined(fill: Rgb565, stroke: Rgb565, width: u32) -> ShapeStyle {
    ShapeStyle { fill_color: fill, stroke_color: Some(stroke), stroke_width: width }
}

/// The background art that an eye can show behind its shapes.
#[derive(Clone, Copy, Debug, PartialEq, Eq, Structural)]
pub enum BackgroundArt {
    /// A soft gradient.
    Gradient,
}

/// The art behind an eye with the given expression, if there is any: so far only the
/// right eye has some, for the neutral expression.
pub open spec fn art_for(emotion: EmotionExpression, is_left: bool) -> Option<BackgroundArt> {
    if !is_left && emotion == EmotionExpression::Neutral {
        Some(BackgroundArt::Gradient)
    } else {
        None
    }
}

/// The colour of the skin around an eye with the given expression.
pub open spec fn skin_of(emotion: EmotionExpression) -> Rgb565 {
    match emotion {
        EmotionExpression::Neutral => truncated_rgb565(NEUTRAL_SKIN_HEX),
        EmotionExpression::Surprise => NamedColor::Orange.rgb565(),
        EmotionExpression::MaxCount => NamedColor::BlueViolet.rgb565(),
    }
}

/// The shapes of the background, back to front: on the left eye a large ellipse,
/// then on either eye the brow.
pub open spec fn background_layer_specs(is_left: bool) -> Seq<LayerSpec> {
    let ellipse = LayerSpec {
        name: "grande_ellipse"@,
        style: ShapeStyle {
            fill_color: NamedColor::LightGreen.rgb565(),
            stroke_color: Some(NamedColor::Black.rgb565()),
            stroke_width: 0,
        },
    };
    let brow = LayerSpec {
        name: "eyebrow"@,
        style: outlined(NamedColor::Black.rgb565(), NamedColor::Black.rgb565(), 1),
    };
    if is_left {
        seq![ellipse, brow]
    } else {
        seq![brow]
    }
}

/// The name of a shape of the eyeball that follows the gaze.
pub open spec fn gaze_name(prefix: Seq<char>, gaze: GazeDirection, look_step: u8) -> Seq<char> {
    asset_name(prefix, GazeDirection::StraightAhead, gaze, look_step)
}

/// The shapes of the eyeball, back to front: the white, the iris, the shadow on the
/// iris, the pupil, the large glint and the small glint. All but the white follow
/// the gaze. The iris is outlined in a darker tone, which also fills its shadow.
pub open spec fn inner_eye_layer_specs(gaze: GazeDirection, look_step: u8, iris: Rgb565) -> Seq<
    LayerSpec,
> {
    let darker = adjusted(iris, FACTOR_DARKEN_10 as int);
    seq![
        LayerSpec { name: "sclera"@, style: filled(truncated_rgb565(SCLERA_HEX)) },
        LayerSpec { name: gaze_name("iris"@, gaze, look_step), style: outlined(iris, darker, 1) },
        LayerSpec {
            name: gaze_name("iris_shadow_top"@, gaze, look_step),
            style: filled(darker),
        },
        LayerSpec {
            name: gaze_name("pupil"@, gaze, look_step),
            style: filled(NamedColor::Black.rgb565()),
        },
        LayerSpec {
            name: gaze_name("glint_lg"@, gaze, look_step),
            style: filled(NamedColor::White.rgb565()),
        },
        LayerSpec {
            name: gaze_name("glint_sm"@, gaze, look_step),
            style: filled(NamedColor::White.rgb565()),
        },
    ]
}

/// The shapes that lie over the eyeball, back to front: the shadow of the upper
/// lid, its shine, the lid itself, then the bulge of the lower lid and its shine.
/// The lower lid takes its tones from the skin.
pub open spec fn overlay_layer_specs(skin: Rgb565) -> Seq<LayerSpec> {
    let lid = truncated_rgb565(UPPER_LID_HEX);
    seq![
        LayerSpec {
            name: "upper_lid_shadow_neutral"@,
            style: filled(truncated_rgb565(UPPER_LID_SHADOW_HEX)),
        },
        LayerSpec {
            name: "upper_lid_shine_11"@,
            style: outlined(
                adjusted(lid, FACTOR_BRIGHTEN_20 as int),
                adjusted(lid, FACTOR_DARKEN_30 as int),
                2,
            ),
        },
        LayerSpec { name: "upper_lid_11"@, style: filled(lid) },
        LayerSpec {
            name: "lower_lid_bulge_11"@,
            style: outlined(
                adjusted(skin, FACTOR_DARKEN_20 as int),
                NamedColor::Black.rgb565(),
                1,
            ),
        },
        LayerSpec {
            name: "lower_lid_shine_11"@,
            style: outlined(
                adjusted(skin, FACTOR_BRIGHTEN_20 as int),
                NamedColor::Black.rgb565(),
                1,
            ),
        },
    ]
}

/// The shapes of the eyeball and then those that lie over it, back to front.
pub open spec fn eyeball_layer_specs(
    gaze: GazeDirection,
    look_step: u8,
    iris: Rgb565,
    skin: Rgb565,
) -> Seq<LayerSpec> {
    inner_eye_layer_specs(gaze, look_step, iris) + overlay_layer_specs(skin)
}

/// All the shapes that a cycle draws, back to front: those of the background where
/// the background is drawn, then those of the eyeball and over it where the eyeball
/// is drawn.
pub open spec fn planned_layer_specs(
    plan: RenderPlan,
    is_left: bool,
    frame: SharedFrameState,
) -> Seq<LayerSpec> {
    let behind = if plan.draw_background {
        background_layer_specs(is_left)
    } else {
        Seq::<LayerSpec>::empty()
    };
    let eyeball = if plan.draw_eyeball {
        eyeball_layer_specs(
            frame.gaze_direction,
            frame.look_step,
            frame.iris_color,
            plan.skin_color,
        )
    } else {
        Seq::<LayerSpec>::empty()
    };
    behind + eyeball
}

/// What two lists of layers say, one after the other, is what the joined list says.
pub proof fn lemma_layer_specs_concat(a: Seq<ShapeLayer>, b: Seq<ShapeLayer>)
    ensures
        layer_specs(a + b) == layer_specs(a) + layer_specs(b),
{
    assert(layer_specs(a + b) =~= layer_specs(a) + layer_specs(b));
}

impl ShapeStyle {
    /// The style of a shape that is filled and has no outline.
    pub fn with_fill(fill: Rgb565) -> (style: ShapeStyle)
        ensures
            style == filled(fill),
    {
        ShapeStyle { fill_color: fill, stroke_color: None, stroke_width: 0 }
    }

    /// The style of a shape that is filled and outlined.
    pub fn with_fill_and_stroke(fill: Rgb565, stroke: Rgb565, width: u32) -> (style: ShapeStyle)
        ensures
            style == outlined(fill, stroke, width),
    {
        ShapeStyle { fill_color: fill, stroke_color: Some(stroke), stroke_width: width }
    }
}

/// Makes the layer of a shape that has one pose only.
fn plain_layer(name: &str, style: ShapeStyle) -> (layer: ShapeLayer)
    requires
        byte_len(name@) <= 32,
    ensures
        layer@ == (LayerSpec { name: name@, style }),
{
    ShapeLayer { name: plain_asset_name(name), style }
}

/// Makes the layer of a shape that follows the gaze out from the centre.
fn gaze_layer(prefix: &str, gaze: GazeDirection, look_step: u8, style: ShapeStyle) -> (layer:
    ShapeLayer)
    requires
        name_fits(prefix@, GazeDirection::StraightAhead, gaze, look_step),
    ensures
        layer@ == (LayerSpec { name: gaze_name(prefix@, gaze, look_step), style }),
{
    ShapeLayer { name: stepped_asset_name(prefix, gaze, look_step), style }
}

/// Returns the art behind an eye with the given expression, if there is any.
pub fn background_art(emotion: EmotionExpression, is_left: bool) -> (art: Option<BackgroundArt>)
    ensures
        art == art_for(emotion, is_left),
{
    match (is_left, emotion) {
        (false, EmotionExpression::Neutral) => Some(BackgroundArt::Gradient),
        _ => None,
    }
}

/// Returns the colour of the skin around an eye with the given expression.
pub fn skin_color(emotion: EmotionExpression) -> (skin: Rgb565)
    ensures
        skin == skin_of(emotion),
{
    match emotion {
        EmotionExpression::Neutral => hex_to_rgb565(NEUTRAL_SKIN_HEX),
        EmotionExpression::Surprise => NamedColor::Orange.color(),
        _ => NamedColor::BlueViolet.color(),
    }
}

/// Returns the shapes of the background of an eye, back to front.
pub fn background_layers(is_left: bool) -> (layers: Vec<ShapeLayer>)
    ensures
        layer_specs(layers@) == background_layer_specs(is_left),
{
    proof {
        reveal_strlit("grande_ellipse");
        reveal_strlit("eyebrow");
        assert(is_ascii_chars("grande_ellipse"@));
        assert(is_ascii_chars("eyebrow"@));
        lemma_byte_len_ascii("grande_ellipse"@);
        lemma_byte_len_ascii("eyebrow"@);
    }
    let black = NamedColor::Black.color();
    let brow_style = ShapeStyle::with_fill_and_stroke(black, black, 1);
    let ellipse_style = ShapeStyle {
        fill_color: NamedColor::LightGreen.color(),
        stroke_color: Some(black),
        stroke_width: 0,
    };
    let mut layers: Vec<ShapeLayer> = Vec::new();
    if is_left {
        layers.push(plain_layer("grande_ellipse", ellipse_style));
    }
    layers.push(plain_layer("eyebrow", brow_style));
    assert(layer_specs(layers@) =~= background_layer_specs(is_left));
    layers
}

/// Returns the shapes of the eyeball for a gaze, a look step and an iris colour,
/// back to front.
pub fn inner_eye_layers(end_gaze_dir: GazeDirection, look_step: u8, iris_color: Rgb565) -> (layers:
    Vec<ShapeLayer>)
    requires
        end_gaze_dir.is_direction(),
        end_gaze_dir == GazeDirection::StraightAhead || look_step <= LAST_LOOK_STEP_IDX,
    ensures
        layer_specs(layers@) == inner_eye_layer_specs(end_gaze_dir, look_step, iris_color),
{
    proof {
        reveal_strlit("sclera");
        reveal_strlit("iris");
        reveal_strlit("iris_shadow_top");
        reveal_strlit("pupil");
        reveal_strlit("glint_lg");
        reveal_strlit("glint_sm");
        assert(is_ascii_chars("sclera"@));
        assert(is_ascii_chars("iris"@));
        assert(is_ascii_chars("iris_shadow_top"@));
        assert(is_ascii_chars("pupil"@));
        assert(is_ascii_chars("glint_lg"@));
        assert(is_ascii_chars("glint_sm"@));
        lemma_byte_len_ascii("sclera"@);
        lemma_byte_len_ascii("iris"@);
        lemma_byte_len_ascii("iris_shadow_top"@);
        lemma_byte_len_ascii("pupil"@);
        lemma_byte_len_ascii("glint_lg"@);
        lemma_byte_len_ascii("glint_sm"@);
    }
    let darker_iris_color = adjust_lightness_rgb565(iris_color, FACTOR_DARKEN_10);
    let iris_style = ShapeStyle::with_fill_and_stroke(iris_color, darker_iris_color, 1);
    let mut layers: Vec<ShapeLayer> = Vec::new();
    layers.push(plain_layer("sclera", ShapeStyle::with_fill(hex_to_rgb565(SCLERA_HEX))));
    layers.push(gaze_layer("iris", end_gaze_dir, look_step, iris_style));
    layers.push(
        gaze_layer(
            "iris_shadow_top",
            end_gaze_dir,
            look_step,
            ShapeStyle::with_fill(darker_iris_color),
        ),
    );
    layers.push(
        gaze_layer(
            "pupil",
            end_gaze_dir,
            look_step,
            ShapeStyle::with_fill(NamedColor::Black.color()),
        ),
    );
    layers.push(
        gaze_layer(
            "glint_lg",
            end_gaze_dir,
            look_step,
            ShapeStyle::with_fill(NamedColor::White.color()),
        ),
    );
    layers.push(
        gaze_layer(
            "glint_sm",
            end_gaze_dir,
            look_step,
            ShapeStyle::with_fill(NamedColor::White.color()),
        ),
    );
    assert(layer_specs(layers@) =~= inner_eye_layer_specs(end_gaze_dir, look_step, iris_color));
    layers
}

/// Returns the shapes that lie over the eyeball, back to front, for a skin colour.
pub fn eyeball_overlay_layers(skin_color: Rgb565) -> (layers: Vec<ShapeLayer>)
    ensures
        layer_specs(layers@) == overlay_layer_specs(skin_color),
{
    proof {
        reveal_strlit("upper_lid_shadow_neutral");
        reveal_strlit("upper_lid_shine_11");
        reveal_strlit("upper_lid_11");
        reveal_strlit("lower_lid_bulge_11");
        reveal_strlit("lower_lid_shine_11");
        assert(is_ascii_chars("upper_lid_shadow_neutral"@));
        assert(is_ascii_chars("upper_lid_shine_11"@));
        assert(is_ascii_chars("upper_lid_11"@));
        assert(is_ascii_chars("lower_lid_bulge_11"@));
        assert(is_ascii_chars("lower_lid_shine_11"@));
        lemma_byte_len_ascii("upper_lid_shadow_neutral"@);
        lemma_byte_len_ascii("upper_lid_shine_11"@);
        lemma_byte_len_ascii("upper_lid_11"@);
        lemma_byte_len_ascii("lower_lid_bulge_11"@);
        lemma_byte_len_ascii("lower_lid_shine_11"@);
    }
    let upper_lid_skin = hex_to_rgb565(UPPER_LID_HEX);
    let upper_lid_shine_color = adjust_lightness_rgb565(upper_lid_skin, FACTOR_BRIGHTEN_20);
    let upper_lid_skin_darker = adjust_lightness_rgb565(upper_lid_skin, FACTOR_DARKEN_30);
    let slightly_brighter_skin = adjust_lightness_rgb565(skin_color, FACTOR_BRIGHTEN_20);
    let slightly_darker_skin = adjust_lightness_rgb565(skin_color, FACTOR_DARKEN_20);
    let black = NamedColor::Black.color();

    let upper_lid_shine_style = ShapeStyle::with_fill_and_stroke(
        upper_lid_shine_color,
        upper_lid_skin_darker,
        2,
    );
    let upper_lid_style = ShapeStyle::with_fill(upper_lid_skin);
    let upper_lid_shadow_style = ShapeStyle::with_fill(hex_to_rgb565(UPPER_LID_SHADOW_HEX));
    let lower_lid_bulge_style = ShapeStyle::with_fill_and_stroke(slightly_darker_skin, black, 1);
    let lower_lid_shine_style = ShapeStyle::with_fill_and_stroke(slightly_brighter_skin, black, 1);

    let mut layers: Vec<ShapeLayer> = Vec::new();
    layers.push(plain_layer("upper_lid_shadow_neutral", upper_lid_shadow_style));
    layers.push(plain_layer("upper_lid_shine_11", upper_lid_shine_style));
    layers.push(plain_layer("upper_lid_11", upper_lid_style));
    layers.push(plain_layer("lower_lid_bulge_11", lower_lid_bulge_style));
    layers.push(plain_layer("lower_lid_shine_11", lower_lid_shine_style));
    assert(layer_specs(layers@) =~= overlay_layer_specs(skin_color));
    layers
}

/// Returns the shapes of the eyeball and then those that lie over it, back to
/// front.
pub fn eyeball_layers(
    end_gaze_dir: GazeDirection,
    look_step: u8,
    iris_color: Rgb565,
    skin_color: Rgb565,
) -> (layers: Vec<ShapeLayer>)
    requires
        end_gaze_dir.is_direction(),
        end_gaze_dir == GazeDirection::StraightAhead || look_step <= LAST_LOOK_STEP_IDX,
    ensures
        layer_specs(layers@) == eyeball_layer_specs(
            end_gaze_dir,
            look_step,
            iris_color,
            skin_color,
        ),
{
    let mut layers = inner_eye_layers(end_gaze_dir, look_step, iris_color);
    let mut overlay = eyeball_overlay_layers(skin_color);
    proof {
        lemma_layer_specs_concat(layers@, overlay@);
    }
    layers.append(&mut overlay);
    layers
}

/// Returns all the shapes that a cycle with the given plan draws on the given
/// frame, back to front.
pub fn planned_layers(plan: &RenderPlan, is_left: bool, frame: &SharedFrameState) -> (layers: Vec<
    ShapeLayer,
>)
    requires
        plan.draw_eyeball ==> frame.gaze_direction.is_direction() && (frame.gaze_direction
            == GazeDirection::StraightAhead || frame.look_step <= LAST_LOOK_STEP_IDX),
    ensures
        layer_specs(layers@) == planned_layer_specs(*plan, is_left, *frame),
{
    let mut layers: Vec<ShapeLayer> = if plan.draw_background {
        background_layers(is_left)
    } else {
        Vec::new()
    };
    assert(layer_specs(Seq::<ShapeLayer>::empty()) =~= Seq::<LayerSpec>::empty());
    if plan.draw_eyeball {
        let mut eyeball = eyeball_layers(
            frame.gaze_direction,
            frame.look_step,
            frame.iris_color,
            plan.skin_color,
        );
        proof {
            lemma_layer_specs_concat(layers@, eyeball@);
        }
        layers.append(&mut eyeball);
    } else {
        assert(layer_specs(layers@) =~= layer_specs(layers@) + Seq::<LayerSpec>::empty());
    }
    layers
}

/// What a renderer is told when it wakes: the counter of the frame that was
/// announced, or the number of announcements that it has missed.
#[derive(Clone, Copy, Debug, PartialEq, Eq, Structural)]
pub enum FrameNotice {
    /// The frame with this counter is ready.
    Message(usize),
    /// This many announcements were missed; the state read is the latest.
    Lagged(u64),
}

/// What the two eyes do to keep in step once a cycle is over.
#[derive(Clone, Copy, Debug, PartialEq, Eq, Structural)]
pub enum Rendezvous {
    /// The leader waits for the follower's cycle count and expects this one.
    AwaitFollower { expected: usize },
    /// The follower signals its cycle count.
    SignalLeader { cycle: usize },
}

/// Two cycle counts that should have been one.
#[derive(Clone, Copy, Debug, PartialEq, Eq, Structural)]
pub struct CycleSkew {
    /// The cycle count of the leader.
    pub leader: usize,
    /// The cycle count that the follower signalled.
    pub follower: usize,
}

/// What a renderer does in one cycle, in this order.
#[derive(Clone, Copy, Debug, PartialEq, Eq, Structural)]
pub struct RenderPlan {
    /// The number of announcements that were missed before this cycle. Above zero
    /// it is worth a warning; the cycle goes on with the latest state.
    pub missed_notices: u64,
    /// True where the expression has changed and the background art is to be
    /// looked up again.
    pub reload_background: bool,
    /// The art behind the eye for the expression of this frame, if there is any.
    /// Without art the background is a flat fill of `skin_color`.
    pub background: Option<BackgroundArt>,
    /// The colour of the skin for the expression of this frame.
    pub skin_color: Rgb565,
    /// True where the background and its shapes are to be drawn.
    pub draw_background: bool,
    /// True where the eyeball and then the shapes over it are to be drawn.
    pub draw_eyeball: bool,
    /// True where the frame buffer is to be pushed to the display.
    pub push: bool,
    /// The backlight to set, in percent, whether or not anything was drawn.
    pub brightness_percent: u8,
    /// What to do for the rendezvous once all of this is done.
    pub rendezvous: Rendezvous,
}

/// The state that the render pipeline of one eye keeps from cycle to cycle.
#[derive(Clone, Copy, Debug, PartialEq, Eq, Structural)]
pub struct EyeRenderer {
    /// True of the left eye, which leads the rendezvous.
    pub is_left: bool,
    /// True while the frame buffer holds what the display has not been shown.
    pub display_needs_push: bool,
    /// The expression whose background art is loaded, if any was looked up yet.
    pub loaded_emotion: Option<EmotionExpression>,
    /// The number of cycles so far.
    pub cycle_count: usize,
}

/// The number of missed announcements that a notice reports.
pub open spec fn missed_by(notice: FrameNotice) -> u64 {
    match notice {
        FrameNotice::Message(_) => 0,
        FrameNotice::Lagged(missed) => missed,
    }
}

impl EyeRenderer {
    /// True where a cycle on `frame` draws anything at all: a layer is stale, or
    /// the display has not been shown the buffer yet.
    pub open spec fn redraws(self, frame: SharedFrameState) -> bool {
        frame.bg_dirty || frame.iris_dirty || self.display_needs_push
    }

    /// The rendezvous after the cycle that brings the count to `cycle`.
    pub open spec fn rendezvous_at(self, cycle: usize) -> Rendezvous {
        if self.is_left {
            Rendezvous::AwaitFollower { expected: cycle }
        } else {
            Rendezvous::SignalLeader { cycle }
        }
    }

    /// What the renderer does in a cycle that wakes on `notice` and reads `frame`.
    pub open spec fn plan_for(self, notice: FrameNotice, frame: SharedFrameState) -> RenderPlan {
        RenderPlan {
            missed_notices: missed_by(notice),
            reload_background: self.loaded_emotion != Some(frame.emotion),
            background: art_for(frame.emotion, self.is_left),
            skin_color: skin_of(frame.emotion),
            draw_background: frame.bg_dirty || self.display_needs_push,
            draw_eyeball: self.redraws(frame),
            push: self.redraws(frame),
            brightness_percent: frame.brightness_percent,
            rendezvous: self.rendezvous_at((self.cycle_count + 1) as usize),
        }
    }

    /// The renderer after a cycle on `frame`: the buffer is pushed, the art of the
    /// frame's expression is loaded, and one more cycle is counted.
    pub open spec fn after_cycle(self, frame: SharedFrameState) -> EyeRenderer {
        EyeRenderer {
            is_left: self.is_left,
            display_needs_push: false,
            loaded_emotion: Some(frame.emotion),
            cycle_count: (self.cycle_count + 1) as usize,
        }
    }

    /// The renderer after one cycle on each of `frames`, in order.
    pub open spec fn after_frames(self, frames: Seq<SharedFrameState>) -> EyeRenderer
        decreases frames.len(),
    {
        if frames.len() == 0 {
            self
        } else {
            self.after_frames(frames.drop_last()).after_cycle(frames.last())
        }
    }

    /// True where the cycle on frame `i` of `frames` pushes the buffer.
    pub open spec fn pushes_at(self, frames: Seq<SharedFrameState>, i: int) -> bool {
        self.after_frames(frames.take(i)).redraws(frames[i])
    }

    /// The renderer of an eye before its first cycle: nothing is loaded, and the
    /// display has yet to be shown the buffer.
    pub fn new(is_left: bool) -> (renderer: EyeRenderer)
        ensures
            renderer == (EyeRenderer {
                is_left,
                display_needs_push: true,
                loaded_emotion: None,
                cycle_count: 0,
            }),
    {
        EyeRenderer { is_left, display_needs_push: true, loaded_emotion: None, cycle_count: 0 }
    }

    /// Plans one cycle on the frame state that was read after `notice`, and counts
    /// it.
    pub fn begin_cycle(&mut self, notice: FrameNotice, frame: &SharedFrameState) -> (plan:
        RenderPlan)
        requires
            old(self).cycle_count < usize::MAX,
        ensures
            plan == old(self).plan_for(notice, *frame),
            *final(self) == old(self).after_cycle(*frame),
    {
        let missed_notices: u64 = match notice {
            FrameNotice::Message(_) => 0,
            FrameNotice::Lagged(missed) => missed,
        };
        let reload_background = match self.loaded_emotion {
            Some(loaded) => loaded != frame.emotion,
            None => true,
        };
        let mut display_dirty = self.display_needs_push;
        let mut draw_background = false;
        let mut draw_eyeball = false;
        let mut push = false;
        if frame.bg_dirty || display_dirty {
            draw_background = true;
            display_dirty = true;
        }
        if frame.iris_dirty || display_dirty {
            draw_eyeball = true;
            display_dirty = true;
        }
        if display_dirty {
            push = true;
            display_dirty = false;
        }
        let redraw_loop_count: usize = self.cycle_count + 1;
        let rendezvous = if self.is_left {
            Rendezvous::AwaitFollower { expected: redraw_loop_count }
        } else {
            Rendezvous::SignalLeader { cycle: redraw_loop_count }
        };
        let plan = RenderPlan {
            missed_notices,
            reload_background,
            background: background_art(frame.emotion, self.is_left),
            skin_color: skin_color(frame.emotion),
            draw_background,
            draw_eyeball,
            push,
            brightness_percent: frame.brightness_percent,
            rendezvous,
        };
        self.display_needs_push = display_dirty;
        self.loaded_emotion = Some(frame.emotion);
        self.cycle_count = redraw_loop_count;
        plan
    }

    /// Holds the cycle count that the follower signalled against the leader's own.
    /// A difference is a skew worth a warning, and nothing more: both eyes go on.
    pub fn check_follower(&self, reported: usize) -> (skew: Option<CycleSkew>)
        ensures
            skew is None <==> reported == self.cycle_count,
            skew matches Some(s) ==> s.leader == self.cycle_count && s.follower == reported,
    {
        if reported != self.cycle_count {
            Some(CycleSkew { leader: self.cycle_count, follower: reported })
        } else {
            None
        }
    }
}

/// After at least one cycle the display has been shown the buffer.
pub proof fn lemma_pushed_after_first_cycle(renderer: EyeRenderer, frames: Seq<SharedFrameState>)
    requires
        frames.len() > 0,
    ensures
        !renderer.after_frames(frames).display_needs_push,
        renderer.after_frames(frames).is_left == renderer.is_left,
        renderer.after_frames(frames).loaded_emotion == Some(frames.last().emotion),
    decreases frames.len(),
{
    if frames.len() > 1 {
        lemma_pushed_after_first_cycle(renderer, frames.drop_last());
    } else {
        assert(renderer.after_frames(frames.drop_last()) == renderer);
    }
}

/// A cycle pushes the buffer exactly where a layer of its frame is stale, but for
/// the first cycle of a renderer that has yet to show the buffer, which always
/// pushes.
pub proof fn lemma_push_only_when_stale(
    renderer: EyeRenderer,
    frames: Seq<SharedFrameState>,
    i: int,
)
    requires
        0 <= i < frames.len(),
    ensures
        renderer.pushes_at(frames, i) == (frames[i].bg_dirty || frames[i].iris_dirty || (i == 0
            && renderer.display_needs_push)),
{
    if i > 0 {
        lemma_pushed_after_first_cycle(renderer, frames.take(i));
    } else {
        assert(frames.take(0).len() == 0);
    }
}

/// Once the buffer has been pushed, no cycle pushes it again for as long as both
/// stale flags of the frames stay false.
pub proof fn lemma_no_push_while_clean(renderer: EyeRenderer, frames: Seq<SharedFrameState>)
    requires
        !renderer.display_needs_push,
        forall|j: int| 0 <= j < frames.len() ==> !frames[j].bg_dirty && !frames[j].iris_dirty,
    ensures
        forall|i: int| 0 <= i < frames.len() ==> !#[trigger] renderer.pushes_at(frames, i),
{
    assert forall|i: int| 0 <= i < frames.len() implies !#[trigger] renderer.pushes_at(
        frames,
        i,
    ) by {
        lemma_push_only_when_stale(renderer, frames, i);
    }
}

/// Whatever is drawn is pushed, and nothing is pushed that was not drawn: a cycle
/// pushes exactly where it draws the eyeball, and draws the eyeball wherever it
/// draws the background.
pub proof fn lemma_drawn_is_pushed(
    renderer: EyeRenderer,
    notice: FrameNotice,
    frame: SharedFrameState,
)
    ensures
        renderer.plan_for(notice, frame).push == renderer.plan_for(notice, frame).draw_eyeball,
        renderer.plan_for(notice, frame).draw_background ==> renderer.plan_for(
            notice,
            frame,
        ).draw_eyeball,
        renderer.plan_for(notice, frame).brightness_percent == frame.brightness_percent,
{
}

/// Two eyes that start together and run the same number of cycles meet in step:
/// the count that the follower signals is the one that the leader expects.
pub proof fn lemma_eyes_in_step(
    leader: EyeRenderer,
    follower: EyeRenderer,
    leader_frames: Seq<SharedFrameState>,
    follower_frames: Seq<SharedFrameState>,
)
    requires
        leader.cycle_count == follower.cycle_count,
        leader_frames.len() == follower_frames.len(),
        leader.cycle_count + leader_frames.len() <= usize::MAX,
    ensures
        leader.after_frames(leader_frames).cycle_count == follower.after_frames(
            follower_frames,
        ).cycle_count,
        leader.after_frames(leader_frames).cycle_count == leader.cycle_count
            + leader_frames.len(),
    decreases leader_frames.len(),
{
    if leader_frames.len() > 0 {
        lemma_eyes_in_step(
            leader,
            follower,
            leader_frames.drop_last(),
            follower_frames.drop_last(),
        );
    }
}

} // verus!
