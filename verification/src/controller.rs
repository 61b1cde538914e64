//! The animation controller: one tick turns the frame counter and the mode inputs
//! into the frame that both eyes draw.
//!
//! The controller owns the frame counter, the brightness ramp and the pose that was
//! last shown. A tick reads the two mode inputs and the random draw it is handed,
//! and gives back the frame state to publish, the counter to announce it with and
//! the time to sleep before the next tick. Reading inputs, drawing random numbers,
//! publishing and sleeping are the caller's.

use crate::color::{hex_to_rgb565, rgb565, truncated_rgb565, Rgb565};
use crate::gaze::{
    arm_traversal, clockwise_order, hsweep_order, lemma_arm_traversal_stays_on_arms,
    lemma_arm_traversal_step, meander_order, vsweep_order, EmotionExpression, GazeDirection,
    LAST_LOOK_STEP_IDX,
};
use crate::palette::{purple_palette, NamedColor, IRIS_PALETTE_PURPLE};
use vstd::prelude::*;

verus! {

/// Milliseconds between two frames at the ordinary pace.
pub const INTERFRAME_DELAY_MILLIS: usize = 120;

/// Number of animation modes.
pub const NUM_ANIMATION_MODES: u8 = 9;

/// Number of values of the second mode input: the ticks of a sweep over two arms.
pub const MAX_MODE_B_COUNT: u8 = 14;

/// The dimmest backlight, in percent.
pub const MIN_BRIGHTNESS_PERCENT: u8 = 5;

/// The brightest backlight, in percent.
pub const MAX_BRIGHTNESS_PERCENT: u8 = 100;

/// Milliseconds that the backlight takes from dark to bright.
pub const FADE_MILLIS: usize = 5000;

/// The longest time between two frames for which a brightness step is defined.
pub const MAX_FRAME_GAP_MILLIS: usize = 12_799;

/// The brightness before the first tick, in percent.
pub const INITIAL_BRIGHTNESS_PERCENT: u8 = 50;

/// The iris colour before the first tick, as packed bits.
pub const INITIAL_IRIS_BITS: u16 = 0x18ff;

/// The iris colour of the meander, as `0xRRGGBB`.
pub const MEANDER_IRIS_HEX: u32 = 0x405D80;

/// The animation modes, in the order in which the mode input steps through them.
#[derive(Clone, Copy, Debug, PartialEq, Eq, Structural)]
pub enum AnimationMode {
    /// Arm after arm, clockwise.
    ClockStar,
    /// Horizontal sweep, moved by hand through the second mode input.
    HStep,
    /// Vertical sweep, moved by hand through the second mode input.
    VStep,
    /// West and back, East and back.
    HSweep,
    /// North and back, South and back.
    VSweep,
    /// The horizontal sweep with a startled look and a cycling purple iris.
    SurpriseHSweep,
    /// Arm after arm, row by row.
    Meander,
    /// The meander at a random tick, at half pace.
    SlowRandMeander,
    /// The meander at a random tick with a random iris, at double pace.
    Randomize,
}

/// The random numbers that one tick may use.
#[derive(Clone, Copy, Debug, PartialEq, Eq, Structural)]
pub struct RandomDraw {
    /// Red of a random iris.
    pub red: u8,
    /// Green of a random iris.
    pub green: u8,
    /// Blue of a random iris.
    pub blue: u8,
    /// The tick of the meander to show.
    pub gaze_count: u8,
}

/// What both eyes read to draw one frame.
#[derive(Clone, Copy, Debug, PartialEq, Eq, Structural)]
pub struct SharedFrameState {
    /// Where the eyes look.
    pub gaze_direction: GazeDirection,
    /// How far along the way from the centre to that direction.
    pub look_step: u8,
    /// The colour of the iris.
    pub iris_color: Rgb565,
    /// The expression of the eyes.
    pub emotion: EmotionExpression,
    /// The backlight, in percent.
    pub brightness_percent: u8,
    /// True where the background must be drawn again.
    pub bg_dirty: bool,
    /// True where the eyeball must be drawn again.
    pub iris_dirty: bool,
}

/// The frame state as the plain numbers that are shared between the tasks.
#[derive(Clone, Copy, Debug, PartialEq, Eq, Structural)]
pub struct RawFrameState {
    pub gaze_direction: u8,
    pub look_step: u8,
    pub iris_color: u16,
    pub emotion: u8,
    pub brightness_percent: u8,
    pub bg_dirty: bool,
    pub iris_dirty: bool,
}

/// What one tick hands to its caller.
#[derive(Clone, Copy, Debug, PartialEq, Eq, Structural)]
pub struct FrameUpdate {
    /// The frame state to write.
    pub state: SharedFrameState,
    /// The counter to announce the frame with, once the state is written.
    pub frame_counter: usize,
    /// Milliseconds to sleep before the next tick.
    pub sleep_millis: usize,
}

/// The state that the controller keeps from tick to tick.
#[derive(Clone, Copy, Debug, PartialEq, Eq, Structural)]
pub struct Controller {
    /// Number of ticks so far.
    pub frame_counter: usize,
    /// The backlight as last published, in percent.
    pub brightness_percent: u8,
    /// True while the backlight grows brighter.
    pub brightness_ascending: bool,
    /// The mode of the last tick, if there was one.
    pub last_mode: Option<AnimationMode>,
    /// The second mode input of the last tick, if there was one.
    pub last_mode_b: Option<u8>,
    /// The gaze as last published.
    pub gaze_direction: GazeDirection,
    /// The look step as last published.
    pub look_step: u8,
}

/// The percent by which the backlight moves in one tick, so that a full fade takes
/// the same time at every pace: one percent for each fiftieth of a second between
/// two frames, and never less than one.
pub open spec fn brightness_step(gap_millis: int) -> int {
    if 100 * gap_millis / 5000 < 1 {
        1
    } else {
        100 * gap_millis / 5000
    }
}

/// The backlight and its direction after one step of the ramp. At either bound the
/// backlight stops there and turns round.
pub open spec fn ramped_brightness(percent: int, ascending: bool, step: int) -> (int, bool) {
    if ascending {
        if percent + step >= 100 {
            (100, false)
        } else {
            (percent + step, true)
        }
    } else {
        if percent - step <= 5 {
            (5, true)
        } else {
            (percent - step, false)
        }
    }
}

/// The mode input that follows `raw` when the mode button is pressed.
pub open spec fn next_mode_a(raw: u8) -> int {
    (raw + 1) % 9
}

/// The second mode input that follows `raw` when its button is pressed.
pub open spec fn next_mode_b(raw: u8) -> int {
    (raw + 1) % 14
}

/// Returns the mode input that follows `raw` when the mode button is pressed.
pub fn next_mode_a_value(raw: u8) -> (next: u8)
    ensures
        next == next_mode_a(raw),
        next < NUM_ANIMATION_MODES,
{
    (raw % NUM_ANIMATION_MODES + 1) % NUM_ANIMATION_MODES
}

/// Returns the second mode input that follows `raw` when its button is pressed.
pub fn next_mode_b_value(raw: u8) -> (next: u8)
    ensures
        next == next_mode_b(raw),
        next < MAX_MODE_B_COUNT,
{
    (raw % MAX_MODE_B_COUNT + 1) % MAX_MODE_B_COUNT
}

/// Returns the percent by which the backlight moves in one tick.
pub fn brightness_step_for_gap(gap_millis: usize) -> (step: u8)
    requires
        gap_millis <= MAX_FRAME_GAP_MILLIS,
    ensures
        step == brightness_step(gap_millis as int),
        step >= 1,
{
    let raw: usize = 100 * gap_millis / FADE_MILLIS;
    if raw < 1 {
        1
    } else {
        raw as u8
    }
}

/// Moves the backlight by one step of its ramp.
pub fn ramp_brightness(percent: u8, ascending: bool, step: u8) -> (res: (u8, bool))
    requires
        MIN_BRIGHTNESS_PERCENT <= percent <= MAX_BRIGHTNESS_PERCENT,
    ensures
        res.0 == ramped_brightness(percent as int, ascending, step as int).0,
        res.1 == ramped_brightness(percent as int, ascending, step as int).1,
        MIN_BRIGHTNESS_PERCENT <= res.0 <= MAX_BRIGHTNESS_PERCENT,
{
    if ascending {
        if step >= MAX_BRIGHTNESS_PERCENT - percent {
            (MAX_BRIGHTNESS_PERCENT, false)
        } else {
            (percent + step, true)
        }
    } else {
        if step >= percent - MIN_BRIGHTNESS_PERCENT {
            (MIN_BRIGHTNESS_PERCENT, true)
        } else {
            (percent - step, false)
        }
    }
}

impl AnimationMode {
    /// The position of the mode in the order of the mode input.
    pub open spec fn ordinal(self) -> int {
        match self {
            AnimationMode::ClockStar => 0,
            AnimationMode::HStep => 1,
            AnimationMode::VStep => 2,
            AnimationMode::HSweep => 3,
            AnimationMode::VSweep => 4,
            AnimationMode::SurpriseHSweep => 5,
            AnimationMode::Meander => 6,
            AnimationMode::SlowRandMeander => 7,
            AnimationMode::Randomize => 8,
        }
    }

    /// The mode that a mode input selects: the input is reduced modulo the number
    /// of modes, so every input selects one.
    pub open spec fn of_raw(raw: u8) -> AnimationMode {
        let n = raw as int % 9;
        if n == 0 {
            AnimationMode::ClockStar
        } else if n == 1 {
            AnimationMode::HStep
        } else if n == 2 {
            AnimationMode::VStep
        } else if n == 3 {
            AnimationMode::HSweep
        } else if n == 4 {
            AnimationMode::VSweep
        } else if n == 5 {
            AnimationMode::SurpriseHSweep
        } else if n == 6 {
            AnimationMode::Meander
        } else if n == 7 {
            AnimationMode::SlowRandMeander
        } else {
            AnimationMode::Randomize
        }
    }

    /// True of the modes whose gaze only moves when an input changes.
    pub open spec fn gaze_frozen(self) -> bool {
        self == AnimationMode::HStep || self == AnimationMode::VStep
    }

    /// True of the modes that show a random tick of the meander.
    pub open spec fn gaze_random(self) -> bool {
        self == AnimationMode::SlowRandMeander || self == AnimationMode::Randomize
    }

    /// True of the mode that paints a random iris.
    pub open spec fn iris_random(self) -> bool {
        self == AnimationMode::Randomize
    }

    /// The expression that the mode shows.
    pub open spec fn shown_emotion(self) -> EmotionExpression {
        if self == AnimationMode::SurpriseHSweep {
            EmotionExpression::Surprise
        } else {
            EmotionExpression::Neutral
        }
    }

    /// Milliseconds between two frames of the mode.
    pub open spec fn gap_millis(self) -> usize {
        match self {
            AnimationMode::HStep => 240,
            AnimationMode::VStep => 240,
            AnimationMode::SlowRandMeander => 240,
            AnimationMode::ClockStar => 240,
            AnimationMode::Randomize => 60,
            _ => 120,
        }
    }

    /// The backlight and direction from which the mode ramps: its own, where it has
    /// one, and otherwise those it is given.
    pub open spec fn ramp_start(self, percent: u8, ascending: bool) -> (u8, bool) {
        match self {
            AnimationMode::HSweep => (percent, ascending),
            AnimationMode::VSweep => (percent, ascending),
            AnimationMode::Randomize => (percent, ascending),
            AnimationMode::SurpriseHSweep => (90u8, true),
            _ => (75u8, false),
        }
    }

    /// The iris colour of the mode at tick `counter`, given the random draw.
    pub open spec fn tint(self, counter: nat, draw: RandomDraw) -> Rgb565 {
        match self {
            AnimationMode::ClockStar => NamedColor::DeepSkyBlue.rgb565(),
            AnimationMode::HStep => NamedColor::SlateGray.rgb565(),
            AnimationMode::VStep => NamedColor::LimeGreen.rgb565(),
            AnimationMode::HSweep => NamedColor::DarkTurquoise.rgb565(),
            AnimationMode::VSweep => NamedColor::Goldenrod.rgb565(),
            AnimationMode::SurpriseHSweep => purple_palette()[counter as int % 8].rgb565(),
            AnimationMode::Meander => truncated_rgb565(MEANDER_IRIS_HEX),
            AnimationMode::SlowRandMeander => NamedColor::Chocolate.rgb565(),
            AnimationMode::Randomize => rgb565(
                draw.red as int % 32,
                draw.green as int % 64,
                draw.blue as int % 32,
            ),
        }
    }

    /// The pose that the mode shows at tick `counter`, where it moves by itself.
    pub open spec fn moving_pose(self, counter: nat, draw: RandomDraw) -> (GazeDirection, u8) {
        match self {
            AnimationMode::ClockStar => arm_traversal(counter, clockwise_order()),
            AnimationMode::HSweep => arm_traversal(counter, hsweep_order()),
            AnimationMode::SurpriseHSweep => arm_traversal(counter, hsweep_order()),
            AnimationMode::VSweep => arm_traversal(counter, vsweep_order()),
            AnimationMode::Meander => arm_traversal(counter, meander_order()),
            _ => arm_traversal(draw.gaze_count as nat, meander_order()),
        }
    }

    /// The pose that the mode shows when it is moved by hand to `mode_b`.
    pub open spec fn stepped_pose(self, mode_b: u8) -> (GazeDirection, u8) {
        if self == AnimationMode::VStep {
            arm_traversal((mode_b % 14) as nat, vsweep_order())
        } else {
            arm_traversal((mode_b % 14) as nat, hsweep_order())
        }
    }

    /// The position of the mode in the order of the mode input.
    pub fn to_primitive(self) -> (n: u8)
        ensures
            n == self.ordinal(),
            n < NUM_ANIMATION_MODES,
            AnimationMode::of_raw(n) == self,
    {
        match self {
            AnimationMode::ClockStar => 0,
            AnimationMode::HStep => 1,
            AnimationMode::VStep => 2,
            AnimationMode::HSweep => 3,
            AnimationMode::VSweep => 4,
            AnimationMode::SurpriseHSweep => 5,
            AnimationMode::Meander => 6,
            AnimationMode::SlowRandMeander => 7,
            AnimationMode::Randomize => 8,
        }
    }

    /// Returns the mode that a mode input selects.
    pub fn from_wrapped(raw: u8) -> (mode: AnimationMode)
        ensures
            mode == AnimationMode::of_raw(raw),
            mode.ordinal() == raw as int % 9,
    {
        let n: u8 = raw % NUM_ANIMATION_MODES;
        if n == 0 {
            AnimationMode::ClockStar
        } else if n == 1 {
            AnimationMode::HStep
        } else if n == 2 {
            AnimationMode::VStep
        } else if n == 3 {
            AnimationMode::HSweep
        } else if n == 4 {
            AnimationMode::VSweep
        } else if n == 5 {
            AnimationMode::SurpriseHSweep
        } else if n == 6 {
            AnimationMode::Meander
        } else if n == 7 {
            AnimationMode::SlowRandMeander
        } else {
            AnimationMode::Randomize
        }
    }

    /// Returns the mode that follows this one when the mode button is pressed.
    pub fn next(self) -> (mode: AnimationMode)
        ensures
            mode.ordinal() == (self.ordinal() + 1) % 9,
    {
        AnimationMode::from_wrapped(next_mode_a_value(self.to_primitive()))
    }

    /// True of the modes whose gaze only moves when an input changes.
    pub fn freezes_gaze(self) -> (frozen: bool)
        ensures
            frozen == self.gaze_frozen(),
    {
        match self {
            AnimationMode::HStep => true,
            AnimationMode::VStep => true,
            _ => false,
        }
    }

    /// True of the modes whose tick uses the random gaze count.
    pub fn draws_random_gaze(self) -> (random: bool)
        ensures
            random == self.gaze_random(),
    {
        match self {
            AnimationMode::SlowRandMeander => true,
            AnimationMode::Randomize => true,
            _ => false,
        }
    }

    /// True of the mode whose tick uses the random iris.
    pub fn draws_random_color(self) -> (random: bool)
        ensures
            random == self.iris_random(),
    {
        match self {
            AnimationMode::Randomize => true,
            _ => false,
        }
    }

    /// Returns the expression that the mode shows.
    pub fn emotion(self) -> (e: EmotionExpression)
        ensures
            e == self.shown_emotion(),
            e != EmotionExpression::MaxCount,
    {
        match self {
            AnimationMode::SurpriseHSweep => EmotionExpression::Surprise,
            _ => EmotionExpression::Neutral,
        }
    }

    /// Returns the milliseconds between two frames of the mode.
    pub fn frame_gap_millis(self) -> (gap: usize)
        ensures
            gap == self.gap_millis(),
            gap == 60 || gap == 120 || gap == 240,
    {
        match self {
            AnimationMode::HStep => INTERFRAME_DELAY_MILLIS * 2,
            AnimationMode::VStep => INTERFRAME_DELAY_MILLIS * 2,
            AnimationMode::SlowRandMeander => INTERFRAME_DELAY_MILLIS * 2,
            AnimationMode::ClockStar => INTERFRAME_DELAY_MILLIS * 2,
            AnimationMode::Randomize => INTERFRAME_DELAY_MILLIS / 2,
            _ => INTERFRAME_DELAY_MILLIS,
        }
    }

    /// Returns the backlight and direction from which the mode ramps.
    pub fn brightness_start(self, percent: u8, ascending: bool) -> (start: (u8, bool))
        ensures
            start == self.ramp_start(percent, ascending),
    {
        match self {
            AnimationMode::HSweep => (percent, ascending),
            AnimationMode::VSweep => (percent, ascending),
            AnimationMode::Randomize => (percent, ascending),
            AnimationMode::SurpriseHSweep => (90, true),
            _ => (75, false),
        }
    }

    /// Returns the iris colour of the mode at tick `counter`, given the random draw.
    pub fn iris_color(self, counter: usize, draw: &RandomDraw) -> (color: Rgb565)
        ensures
            color == self.tint(counter as nat, *draw),
    {
        match self {
            AnimationMode::ClockStar => NamedColor::DeepSkyBlue.color(),
            AnimationMode::HStep => NamedColor::SlateGray.color(),
            AnimationMode::VStep => NamedColor::LimeGreen.color(),
            AnimationMode::HSweep => NamedColor::DarkTurquoise.color(),
            AnimationMode::VSweep => NamedColor::Goldenrod.color(),
            AnimationMode::SurpriseHSweep => {
                let palette = IRIS_PALETTE_PURPLE;
                assert(palette@ =~= purple_palette());
                let color_idx: usize = counter % 8;
                palette[color_idx].color()
            },
            AnimationMode::Meander => hex_to_rgb565(MEANDER_IRIS_HEX),
            AnimationMode::SlowRandMeander => NamedColor::Chocolate.color(),
            AnimationMode::Randomize => Rgb565::new(draw.red, draw.green, draw.blue),
        }
    }

    /// Returns the pose of a mode that moves by itself, at tick `counter`.
    pub fn pose_at(self, counter: usize, draw: &RandomDraw) -> (pose: (GazeDirection, u8))
        requires
            !self.gaze_frozen(),
        ensures
            pose == self.moving_pose(counter as nat, *draw),
    {
        match self {
            AnimationMode::ClockStar => GazeDirection::gaze_and_step_for_sparse_star(counter),
            AnimationMode::HSweep => GazeDirection::gaze_and_step_for_hsweep(counter),
            AnimationMode::SurpriseHSweep => GazeDirection::gaze_and_step_for_hsweep(counter),
            AnimationMode::VSweep => GazeDirection::gaze_and_step_for_vsweep(counter),
            AnimationMode::Meander => GazeDirection::gaze_and_look_for_meander(counter),
            _ => {
                let rand_count: usize = draw.gaze_count as usize;
                GazeDirection::gaze_and_look_for_meander(rand_count)
            },
        }
    }

    /// Returns the pose of a mode that is moved by hand, at the second mode input
    /// `mode_b`.
    pub fn pose_for_step(self, mode_b: u8) -> (pose: (GazeDirection, u8))
        requires
            self.gaze_frozen(),
        ensures
            pose == self.stepped_pose(mode_b),
    {
        let sweep_count: usize = (mode_b % MAX_MODE_B_COUNT) as usize;
        match self {
            AnimationMode::VStep => GazeDirection::gaze_and_step_for_vsweep(sweep_count),
            _ => GazeDirection::gaze_and_step_for_hsweep(sweep_count),
        }
    }
}

impl SharedFrameState {
    /// True of a frame state that can be drawn: a direction, a look step on the way
    /// to it, an expression, and a backlight of at most a hundred percent.
    pub open spec fn wf(self) -> bool {
        &&& self.gaze_direction.is_direction()
        &&& self.look_step <= LAST_LOOK_STEP_IDX
        &&& self.emotion != EmotionExpression::MaxCount
        &&& self.brightness_percent <= MAX_BRIGHTNESS_PERCENT
    }

    /// The frame state as plain numbers.
    pub open spec fn raw(self) -> RawFrameState {
        RawFrameState {
            gaze_direction: self.gaze_direction.ordinal() as u8,
            look_step: self.look_step,
            iris_color: self.iris_color.raw,
            emotion: self.emotion.ordinal() as u8,
            brightness_percent: self.brightness_percent,
            bg_dirty: self.bg_dirty,
            iris_dirty: self.iris_dirty,
        }
    }

    /// Tells whether the frame state can be drawn.
    pub fn can_be_drawn(&self) -> (ok: bool)
        ensures
            ok == self.wf(),
    {
        self.gaze_direction.is_a_direction() && self.look_step <= LAST_LOOK_STEP_IDX
            && self.emotion != EmotionExpression::MaxCount && self.brightness_percent
            <= MAX_BRIGHTNESS_PERCENT
    }

    /// The frame state before the first tick: a centred, neutral gaze at half
    /// brightness, with everything still to draw.
    pub fn initial() -> (state: SharedFrameState)
        ensures
            state.wf(),
            state == (SharedFrameState {
                gaze_direction: GazeDirection::StraightAhead,
                look_step: 0,
                iris_color: Rgb565 { raw: INITIAL_IRIS_BITS },
                emotion: EmotionExpression::Neutral,
                brightness_percent: INITIAL_BRIGHTNESS_PERCENT,
                bg_dirty: true,
                iris_dirty: true,
            }),
    {
        SharedFrameState {
            gaze_direction: GazeDirection::StraightAhead,
            look_step: 0,
            iris_color: Rgb565::from_storage(INITIAL_IRIS_BITS),
            emotion: EmotionExpression::Neutral,
            brightness_percent: INITIAL_BRIGHTNESS_PERCENT,
            bg_dirty: true,
            iris_dirty: true,
        }
    }

    /// Returns the frame state as plain numbers, one for each field.
    pub fn encode(&self) -> (raw: RawFrameState)
        ensures
            raw == self.raw(),
    {
        RawFrameState {
            gaze_direction: self.gaze_direction.to_primitive(),
            look_step: self.look_step,
            iris_color: self.iris_color.into_storage(),
            emotion: self.emotion.to_primitive(),
            brightness_percent: self.brightness_percent,
            bg_dirty: self.bg_dirty,
            iris_dirty: self.iris_dirty,
        }
    }

    /// Reads a frame state from plain numbers. There is one exactly where the
    /// numbers stand for a state that can be drawn.
    pub fn decode(raw: &RawFrameState) -> (res: Option<SharedFrameState>)
        ensures
            res is Some <==> (raw.gaze_direction < 9 && raw.look_step <= LAST_LOOK_STEP_IDX
                && raw.emotion < 2 && raw.brightness_percent <= MAX_BRIGHTNESS_PERCENT),
            res matches Some(state) ==> state.wf() && state.raw() == *raw,
    {
        if raw.look_step > LAST_LOOK_STEP_IDX || raw.brightness_percent > MAX_BRIGHTNESS_PERCENT {
            return None;
        }
        let gaze_direction = match GazeDirection::try_from_primitive(raw.gaze_direction) {
            Some(GazeDirection::MaxCount) => {
                return None;
            },
            Some(d) => d,
            None => {
                return None;
            },
        };
        let emotion = match EmotionExpression::try_from_primitive(raw.emotion) {
            Some(EmotionExpression::MaxCount) => {
                return None;
            },
            Some(e) => e,
            None => {
                return None;
            },
        };
        Some(
            SharedFrameState {
                gaze_direction,
                look_step: raw.look_step,
                iris_color: Rgb565::from_storage(raw.iris_color),
                emotion,
                brightness_percent: raw.brightness_percent,
                bg_dirty: raw.bg_dirty,
                iris_dirty: raw.iris_dirty,
            },
        )
    }
}

impl Controller {
    /// True of a controller whose pose can be drawn and whose backlight lies
    /// between five and a hundred percent.
    pub open spec fn wf(self) -> bool {
        &&& self.gaze_direction.is_direction()
        &&& self.look_step <= LAST_LOOK_STEP_IDX
        &&& MIN_BRIGHTNESS_PERCENT <= self.brightness_percent <= MAX_BRIGHTNESS_PERCENT
    }

    /// True where the tick with mode `mode` is the first, or follows a tick with
    /// another mode.
    pub open spec fn mode_changes(self, mode: AnimationMode) -> bool {
        self.last_mode != Some(mode)
    }

    /// True where the tick with the second mode input `mode_b` is the first, or
    /// follows a tick with another value.
    pub open spec fn mode_b_changes(self, mode_b: u8) -> bool {
        self.last_mode_b != Some(mode_b)
    }

    /// True where the tick must have the eyeball drawn again: an input has changed,
    /// or the mode moves by itself.
    pub open spec fn iris_stale(self, mode: AnimationMode, mode_b: u8) -> bool {
        self.mode_changes(mode) || self.mode_b_changes(mode_b) || !mode.gaze_frozen()
    }

    /// The pose that the tick shows.
    pub open spec fn next_pose(self, mode: AnimationMode, mode_b: u8, draw: RandomDraw) -> (
        GazeDirection,
        u8,
    ) {
        if !mode.gaze_frozen() {
            mode.moving_pose(self.frame_counter as nat, draw)
        } else if self.iris_stale(mode, mode_b) {
            mode.stepped_pose(mode_b)
        } else {
            (self.gaze_direction, self.look_step)
        }
    }

    /// The backlight and its direction after the tick.
    pub open spec fn next_brightness(self, mode: AnimationMode) -> (int, bool) {
        let start = mode.ramp_start(self.brightness_percent, self.brightness_ascending);
        ramped_brightness(start.0 as int, start.1, brightness_step(mode.gap_millis() as int))
    }

    /// The frame that the tick publishes.
    pub open spec fn next_frame(self, mode_raw: u8, mode_b: u8, draw: RandomDraw) -> FrameUpdate {
        let mode = AnimationMode::of_raw(mode_raw);
        let pose = self.next_pose(mode, mode_b, draw);
        FrameUpdate {
            state: SharedFrameState {
                gaze_direction: pose.0,
                look_step: pose.1,
                iris_color: mode.tint(self.frame_counter as nat, draw),
                emotion: mode.shown_emotion(),
                brightness_percent: self.next_brightness(mode).0 as u8,
                bg_dirty: self.mode_changes(mode),
                iris_dirty: self.iris_stale(mode, mode_b),
            },
            frame_counter: self.frame_counter,
            sleep_millis: mode.gap_millis(),
        }
    }

    /// The controller after the tick.
    pub open spec fn next_state(self, mode_raw: u8, mode_b: u8, draw: RandomDraw) -> Controller {
        let mode = AnimationMode::of_raw(mode_raw);
        let pose = self.next_pose(mode, mode_b, draw);
        Controller {
            frame_counter: (self.frame_counter + 1) as usize,
            brightness_percent: self.next_brightness(mode).0 as u8,
            brightness_ascending: self.next_brightness(mode).1,
            last_mode: Some(mode),
            last_mode_b: Some(mode_b),
            gaze_direction: pose.0,
            look_step: pose.1,
        }
    }

    /// Tells whether the controller can run a tick: it is well formed and its
    /// frame counter can still grow.
    pub fn can_tick(&self) -> (ok: bool)
        ensures
            ok == (self.wf() && self.frame_counter < usize::MAX),
    {
        self.gaze_direction.is_a_direction() && self.look_step <= LAST_LOOK_STEP_IDX
            && MIN_BRIGHTNESS_PERCENT <= self.brightness_percent && self.brightness_percent
            <= MAX_BRIGHTNESS_PERCENT && self.frame_counter < usize::MAX
    }

    /// The controller before the first tick.
    pub fn new() -> (controller: Controller)
        ensures
            controller.wf(),
            controller == (Controller {
                frame_counter: 0,
                brightness_percent: INITIAL_BRIGHTNESS_PERCENT,
                brightness_ascending: true,
                last_mode: None,
                last_mode_b: None,
                gaze_direction: GazeDirection::StraightAhead,
                look_step: 0,
            }),
    {
        Controller {
            frame_counter: 0,
            brightness_percent: INITIAL_BRIGHTNESS_PERCENT,
            brightness_ascending: true,
            last_mode: None,
            last_mode_b: None,
            gaze_direction: GazeDirection::StraightAhead,
            look_step: 0,
        }
    }

    /// Runs one tick: from the two mode inputs and the random draw, computes the
    /// frame to publish and steps the counter.
    ///
    /// The mode input selects the mode modulo the number of modes. The background
    /// is stale where the mode has changed, the eyeball where an input has changed
    /// or the mode moves by itself.
    pub fn tick(&mut self, mode_raw: u8, mode_b: u8, draw: &RandomDraw) -> (update: FrameUpdate)
        requires
            old(self).wf(),
            old(self).frame_counter < usize::MAX,
        ensures
            update == old(self).next_frame(mode_raw, mode_b, *draw),
            *final(self) == old(self).next_state(mode_raw, mode_b, *draw),
            final(self).wf(),
            update.state.wf(),
            MIN_BRIGHTNESS_PERCENT <= update.state.brightness_percent,
    {
        let mode = AnimationMode::from_wrapped(mode_raw);
        let mode_changed = match self.last_mode {
            Some(last) => last != mode,
            None => true,
        };
        let mode_b_changed = match self.last_mode_b {
            Some(last) => last != mode_b,
            None => true,
        };
        let frozen = mode.freezes_gaze();
        let iris_dirty = mode_changed || mode_b_changed || !frozen;
        let bg_dirty = mode_changed;
        let iris_color = mode.iris_color(self.frame_counter, draw);
        let emotion = mode.emotion();
        let frame_render_gap_millis = mode.frame_gap_millis();

        let pose = if !frozen {
            mode.pose_at(self.frame_counter, draw)
        } else if iris_dirty {
            mode.pose_for_step(mode_b)
        } else {
            (self.gaze_direction, self.look_step)
        };
        proof {
            lemma_pose_can_be_drawn(*old(self), mode, mode_b, *draw);
        }

        let start = mode.brightness_start(self.brightness_percent, self.brightness_ascending);
        let brightstep_pct = brightness_step_for_gap(frame_render_gap_millis);
        let ramped = ramp_brightness(start.0, start.1, brightstep_pct);

        let update = FrameUpdate {
            state: SharedFrameState {
                gaze_direction: pose.0,
                look_step: pose.1,
                iris_color,
                emotion,
                brightness_percent: ramped.0,
                bg_dirty,
                iris_dirty,
            },
            frame_counter: self.frame_counter,
            sleep_millis: frame_render_gap_millis,
        };
        self.frame_counter = self.frame_counter + 1;
        self.brightness_percent = ramped.0;
        self.brightness_ascending = ramped.1;
        self.last_mode = Some(mode);
        self.last_mode_b = Some(mode_b);
        self.gaze_direction = pose.0;
        self.look_step = pose.1;
        update
    }
}

/// At a pace of whole fiftieths of a second the backlight moves by one percent for
/// each of them, so that a fade over all hundred percent takes five seconds at
/// every such pace.
pub proof fn lemma_fade_takes_five_seconds(gap_millis: int)
    requires
        gap_millis >= 50,
        gap_millis % 50 == 0,
    ensures
        brightness_step(gap_millis) * 50 == gap_millis,
        100 * gap_millis == 5000 * brightness_step(gap_millis),
{
}

/// The ramp keeps the backlight between five and a hundred percent, and where a
/// step of at least one percent brings it to either bound, it turns round.
pub proof fn lemma_ramp_turns_at_bounds(percent: int, ascending: bool, step: int)
    requires
        5 <= percent <= 100,
        step >= 1,
    ensures
        5 <= ramped_brightness(percent, ascending, step).0 <= 100,
        ramped_brightness(percent, ascending, step).0 == 100 ==> !ramped_brightness(
            percent,
            ascending,
            step,
        ).1,
        ramped_brightness(percent, ascending, step).0 == 5 ==> ramped_brightness(
            percent,
            ascending,
            step,
        ).1,
        ascending ==> ramped_brightness(percent, ascending, step).0 >= percent,
        !ascending ==> ramped_brightness(percent, ascending, step).0 <= percent,
{
}

/// Every arm of the orders that the modes traverse is a direction.
pub proof fn lemma_orders_hold_directions()
    ensures
        forall|d: GazeDirection| #[trigger] meander_order().contains(d) ==> d.is_direction(),
        forall|d: GazeDirection| #[trigger] clockwise_order().contains(d) ==> d.is_direction(),
        forall|d: GazeDirection| #[trigger] hsweep_order().contains(d) ==> d.is_direction(),
        forall|d: GazeDirection| #[trigger] vsweep_order().contains(d) ==> d.is_direction(),
{
    assert forall|d: GazeDirection| #[trigger] meander_order().contains(d) implies d.is_direction() by {
        let i = choose|i: int| 0 <= i < meander_order().len() && meander_order()[i] == d;
    }
    assert forall|d: GazeDirection| #[trigger] clockwise_order().contains(d) implies d.is_direction() by {
        let i = choose|i: int| 0 <= i < clockwise_order().len() && clockwise_order()[i] == d;
    }
    assert forall|d: GazeDirection| #[trigger] hsweep_order().contains(d) implies d.is_direction() by {
        let i = choose|i: int| 0 <= i < hsweep_order().len() && hsweep_order()[i] == d;
    }
    assert forall|d: GazeDirection| #[trigger] vsweep_order().contains(d) implies d.is_direction() by {
        let i = choose|i: int| 0 <= i < vsweep_order().len() && vsweep_order()[i] == d;
    }
}

/// The pose that a tick shows is a direction at a look step on the way to it.
pub proof fn lemma_pose_can_be_drawn(
    controller: Controller,
    mode: AnimationMode,
    mode_b: u8,
    draw: RandomDraw,
)
    requires
        controller.wf(),
    ensures
        controller.next_pose(mode, mode_b, draw).0.is_direction(),
        controller.next_pose(mode, mode_b, draw).1 <= LAST_LOOK_STEP_IDX,
{
    lemma_orders_hold_directions();
    let counter = controller.frame_counter as nat;
    let random = draw.gaze_count as nat;
    let by_hand = (mode_b % 14) as nat;
    lemma_arm_traversal_step(counter, clockwise_order());
    lemma_arm_traversal_step(counter, hsweep_order());
    lemma_arm_traversal_step(counter, vsweep_order());
    lemma_arm_traversal_step(counter, meander_order());
    lemma_arm_traversal_step(random, meander_order());
    lemma_arm_traversal_step(by_hand, hsweep_order());
    lemma_arm_traversal_step(by_hand, vsweep_order());
    lemma_arm_traversal_stays_on_arms(counter, clockwise_order());
    lemma_arm_traversal_stays_on_arms(counter, hsweep_order());
    lemma_arm_traversal_stays_on_arms(counter, vsweep_order());
    lemma_arm_traversal_stays_on_arms(counter, meander_order());
    lemma_arm_traversal_stays_on_arms(random, meander_order());
    lemma_arm_traversal_stays_on_arms(by_hand, hsweep_order());
    lemma_arm_traversal_stays_on_arms(by_hand, vsweep_order());
}

/// A tick keeps the controller well formed, publishes a frame state that can be
/// drawn, with a backlight between five and a hundred percent, announces it with
/// the counter as it stood and leaves the counter one higher.
pub proof fn lemma_tick_keeps_invariant(
    controller: Controller,
    mode_raw: u8,
    mode_b: u8,
    draw: RandomDraw,
)
    requires
        controller.wf(),
        controller.frame_counter < usize::MAX,
    ensures
        controller.next_state(mode_raw, mode_b, draw).wf(),
        controller.next_frame(mode_raw, mode_b, draw).state.wf(),
        MIN_BRIGHTNESS_PERCENT <= controller.next_frame(
            mode_raw,
            mode_b,
            draw,
        ).state.brightness_percent <= MAX_BRIGHTNESS_PERCENT,
        controller.next_frame(mode_raw, mode_b, draw).frame_counter == controller.frame_counter,
        controller.next_state(mode_raw, mode_b, draw).frame_counter == controller.frame_counter
            + 1,
{
    let mode = AnimationMode::of_raw(mode_raw);
    lemma_pose_can_be_drawn(controller, mode, mode_b, draw);
}

/// What a tick publishes agrees with what the controller keeps: the same pose and
/// the same backlight.
pub proof fn lemma_published_is_kept(
    controller: Controller,
    mode_raw: u8,
    mode_b: u8,
    draw: RandomDraw,
)
    ensures
        ({
            let frame = controller.next_frame(mode_raw, mode_b, draw).state;
            let next = controller.next_state(mode_raw, mode_b, draw);
            &&& frame.gaze_direction == next.gaze_direction
            &&& frame.look_step == next.look_step
            &&& frame.brightness_percent == next.brightness_percent
        }),
{
}

/// The background is stale exactly where the mode differs from that of the tick
/// before, or there was none; and wherever the expression changes between two ticks,
/// the background of the second is stale.
pub proof fn lemma_background_follows_mode(
    controller: Controller,
    first_mode: u8,
    first_b: u8,
    first_draw: RandomDraw,
    second_mode: u8,
    second_b: u8,
    second_draw: RandomDraw,
)
    ensures
        ({
            let first = controller.next_frame(first_mode, first_b, first_draw).state;
            let between = controller.next_state(first_mode, first_b, first_draw);
            let second = between.next_frame(second_mode, second_b, second_draw).state;
            &&& first.bg_dirty == (controller.last_mode != Some(AnimationMode::of_raw(first_mode)))
            &&& second.bg_dirty == (AnimationMode::of_raw(second_mode) != AnimationMode::of_raw(
                first_mode,
            ))
            &&& second.emotion != first.emotion ==> second.bg_dirty
            &&& second.bg_dirty ==> second.iris_dirty
        }),
{
}

/// Wherever the gaze, the look step or the iris colour differs between two ticks,
/// the eyeball of the second is stale.
pub proof fn lemma_changes_are_flagged(
    controller: Controller,
    first_mode: u8,
    first_b: u8,
    first_draw: RandomDraw,
    second_mode: u8,
    second_b: u8,
    second_draw: RandomDraw,
)
    ensures
        ({
            let first = controller.next_frame(first_mode, first_b, first_draw).state;
            let between = controller.next_state(first_mode, first_b, first_draw);
            let second = between.next_frame(second_mode, second_b, second_draw).state;
            (second.gaze_direction != first.gaze_direction || second.look_step != first.look_step
                || second.iris_color != first.iris_color) ==> second.iris_dirty
        }),
{
}

/// On the first tick everything is stale.
pub proof fn lemma_first_tick_is_stale(mode_raw: u8, mode_b: u8, draw: RandomDraw)
    ensures
        ({
            let controller = Controller {
                frame_counter: 0,
                brightness_percent: INITIAL_BRIGHTNESS_PERCENT,
                brightness_ascending: true,
                last_mode: None,
                last_mode_b: None,
                gaze_direction: GazeDirection::StraightAhead,
                look_step: 0,
            };
            let frame = controller.next_frame(mode_raw, mode_b, draw).state;
            frame.bg_dirty && frame.iris_dirty
        }),
{
}

/// In the horizontal sweep a tick shows the pose of the traversal of West and East
/// at the frame counter, whatever else the inputs are.
pub proof fn lemma_hsweep_follows_counter(controller: Controller, mode_b: u8, draw: RandomDraw)
    ensures
        ({
            let frame = controller.next_frame(3, mode_b, draw).state;
            let pose = arm_traversal(controller.frame_counter as nat, hsweep_order());
            &&& frame.gaze_direction == pose.0
            &&& frame.look_step == pose.1
            &&& frame.iris_dirty
        }),
{
}

/// A frame state that can be drawn is read back from its plain numbers as it was.
pub proof fn lemma_raw_tells_state(a: SharedFrameState, b: SharedFrameState)
    requires
        a.wf(),
        b.wf(),
        a.raw() == b.raw(),
    ensures
        a == b,
{
}

/// Nine presses of the mode button lead back to the mode they started from, and no
/// fewer do.
pub proof fn lemma_mode_cycle(raw: u8, presses: nat)
    requires
        raw < NUM_ANIMATION_MODES,
        0 < presses < 9,
    ensures
        next_mode_a(raw) != raw as int,
        (raw + presses) % 9 != raw as int,
        (raw + 9) % 9 == raw as int,
{
}

} // verus!
