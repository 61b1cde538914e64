//! The model behind a pair of animated eyes on two small displays.
//!
//! A controller turns a frame counter and two mode inputs into the frame that both
//! eyes show: where they look, how far along the way there, the colour of the
//! iris, the expression and the brightness. A render pipeline for each eye decides
//! from that frame which layers to draw again, names the shapes of each layer, and
//! pushes its buffer only where something has changed.
//!
//! - [`gaze`]: the 3x3 grid of gaze directions and the traversals of its arms.
//! - [`asset`]: the identifiers under which the outline of each pose is stored.
//! - [`color`]: 16-bit colours and the fixed-point lightness of their channels.
//! - [`palette`]: the named colours that the eyes are painted with.
//! - [`controller`]: the animation modes and the tick that computes each frame.
//! - [`render`]: the cycle of one eye, its layers and the rendezvous of both eyes.
//!
//! Reading buttons, drawing random numbers, sharing the frame between tasks,
//! drawing and driving the displays are left to the program that uses the model.

pub mod asset;
pub mod color;
pub mod controller;
pub mod gaze;
pub mod palette;
pub mod render;

pub use asset::{stepped_asset_name, stepped_asset_name_full, ShapeIdentifier};
pub use color::{
    adjust_lightness_rgb565, hex_to_rgb565, Rgb565, FACTOR_BRIGHTEN_10, FACTOR_BRIGHTEN_20,
    FACTOR_BRIGHTEN_30, FACTOR_BRIGHTEN_40, FACTOR_BRIGHTEN_50, FACTOR_DARKEN_10,
    FACTOR_DARKEN_20, FACTOR_DARKEN_30, FACTOR_DARKEN_40, FACTOR_DARKEN_50,
};
pub use controller::{AnimationMode, Controller, FrameUpdate, RandomDraw, SharedFrameState};
pub use gaze::{
    AsDigit, EmotionExpression, GazeDirection, HALF_SPARSE_LEN, LAST_LOOK_STEP_IDX,
    NUM_LOOK_STEPS, NUM_SHORT_SWEEP_STEPS, NUM_TWEEN_MORPH_STEPS, ORIGINAL_ASSET_GRID_AREA,
    ORIGINAL_ASSET_GRID_DIM, SHORT_SWEEP_FLIP_IDX, SPARSE_CTR_IDX, SPARSE_GRID_ARM_LEN,
    SPARSE_GRID_DIM, SPARSE_GRID_LEN,
};
pub use render::{EyeRenderer, RenderPlan, ShapeLayer, ShapeStyle};
