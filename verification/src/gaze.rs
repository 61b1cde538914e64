//! The 3x3 gaze grid and the arm traversals that animate it.
//!
//! A gaze direction is a cell of a 3x3 grid whose centre is "straight ahead".
//! The eight outer cells are arms: an animation leaves the centre along one
//! arm, reaches its end in three steps, and returns before it takes the next.

use vstd::prelude::*;

verus! {

/// Width and height of the grid of drawn poses.
pub const ORIGINAL_ASSET_GRID_DIM: u8 = 3;

/// Number of cells of the grid of drawn poses.
pub const ORIGINAL_ASSET_GRID_AREA: u8 = ORIGINAL_ASSET_GRID_DIM * ORIGINAL_ASSET_GRID_DIM;

/// Number of tween poses between a start pose and an end pose.
pub const NUM_TWEEN_MORPH_STEPS: u8 = 2;

/// Number of look steps of one transition: start, tweens, end.
pub const NUM_LOOK_STEPS: u8 = NUM_TWEEN_MORPH_STEPS + 2;

/// Number of indices of a short sweep from one side through the centre to the other.
pub const NUM_SHORT_SWEEP_STEPS: u8 = NUM_LOOK_STEPS * 2 - 1;

/// Index of a short sweep at which the centred gaze is found.
pub const SHORT_SWEEP_MID_IDX: u8 = NUM_SHORT_SWEEP_STEPS / 2;

/// First index of a short sweep that lies past the centre.
pub const SHORT_SWEEP_FLIP_IDX: u8 = (NUM_SHORT_SWEEP_STEPS / 2) + 1;

/// The look step at which a transition has arrived at its end pose.
pub const LAST_LOOK_STEP_IDX: u8 = NUM_LOOK_STEPS - 1;

/// Number of steps from the centre to the end of an arm.
pub const SPARSE_GRID_ARM_LEN: u8 = NUM_LOOK_STEPS - 1;

/// Width and height of the grid once the tween poses are laid between the drawn ones.
pub const SPARSE_GRID_DIM: u8 = ORIGINAL_ASSET_GRID_DIM + NUM_TWEEN_MORPH_STEPS * 2;

/// Number of arms around the centre.
pub const NUM_GAZE_ARMS: u8 = 8;

/// Number of poses of the sparse grid: the drawn ones and the tweens of each arm.
pub const SPARSE_GRID_LEN: u8 = NUM_TWEEN_MORPH_STEPS * NUM_GAZE_ARMS + ORIGINAL_ASSET_GRID_AREA;

/// Half of the poses of the sparse grid, rounded down.
pub const HALF_SPARSE_LEN: u8 = SPARSE_GRID_LEN / 2;

/// Index of the centre pose of the sparse grid.
pub const SPARSE_CTR_IDX: u8 = HALF_SPARSE_LEN;

/// The code of the character `0`.
pub const ASCII_ZERO: u8 = 48;

/// Values that have a one-character decimal tag.
pub trait AsDigit: Sized {
    /// The code of the tag character.
    spec fn digit(self) -> u8;

    /// Returns the code of the tag character.
    fn as_digit(self) -> (d: u8)
        ensures
            d == self.digit(),
    ;
}

/// The expression that the eyes take on. `MaxCount` counts the others and is no expression.
#[derive(Clone, Copy, Debug, PartialEq, Eq, Structural)]
pub enum EmotionExpression {
    Neutral,
    Surprise,
    MaxCount,
}

impl EmotionExpression {
    /// The position of the value in the enumeration.
    pub open spec fn ordinal(self) -> int {
        match self {
            EmotionExpression::Neutral => 0,
            EmotionExpression::Surprise => 1,
            EmotionExpression::MaxCount => 2,
        }
    }

    /// The position of the value in the enumeration.
    pub fn to_primitive(self) -> (n: u8)
        ensures
            n == self.ordinal(),
    {
        match self {
            EmotionExpression::Neutral => 0,
            EmotionExpression::Surprise => 1,
            EmotionExpression::MaxCount => 2,
        }
    }

    /// The value at a position of the enumeration, if there is one.
    pub fn try_from_primitive(number: u8) -> (res: Option<EmotionExpression>)
        ensures
            res is Some <==> number <= 2,
            res matches Some(e) ==> e.ordinal() == number,
    {
        match number {
            0 => Some(EmotionExpression::Neutral),
            1 => Some(EmotionExpression::Surprise),
            2 => Some(EmotionExpression::MaxCount),
            _ => None,
        }
    }

    /// The expression selected by an input value: the value is reduced modulo the
    /// number of expressions, so every input selects one.
    pub fn from_wrapped(number: u8) -> (e: EmotionExpression)
        ensures
            e != EmotionExpression::MaxCount,
            e.ordinal() == number as int % 2,
    {
        if number % 2 == 0 {
            EmotionExpression::Neutral
        } else {
            EmotionExpression::Surprise
        }
    }
}

impl AsDigit for EmotionExpression {
    open spec fn digit(self) -> u8 {
        (ASCII_ZERO + self.ordinal()) as u8
    }

    fn as_digit(self) -> (d: u8) {
        ASCII_ZERO + self.to_primitive()
    }
}

/// A gaze direction on the 3x3 grid, from the observer's side: `NorthWest` is the
/// top left cell, `StraightAhead` the centre. `MaxCount` counts the directions and
/// is none of them.
#[derive(Clone, Copy, Debug, PartialEq, Eq, Structural)]
pub enum GazeDirection {
    NorthWest,
    North,
    NorthEast,
    West,
    StraightAhead,
    East,
    SouthWest,
    South,
    SouthEast,
    MaxCount,
}

/// The step that an arm has reached at a given offset into its seven ticks:
/// out by one, two, three, back by two, one, and at rest at both ends.
pub open spec fn ramp_step(offset: int) -> u8 {
    if offset == 1 || offset == 5 {
        1
    } else if offset == 2 || offset == 4 {
        2
    } else if offset == 3 {
        3
    } else {
        0
    }
}

/// The gaze and look step at tick `counter` of a traversal of `arm_order`.
///
/// Each arm takes seven ticks. On the first and the last the gaze is centred;
/// on the five between, it lies on the arm at the step that `ramp_step` gives.
pub open spec fn arm_traversal(counter: nat, arm_order: Seq<GazeDirection>) -> (GazeDirection, u8) {
    let offset = counter as int % 7;
    let arm = (counter as int / 7) % (arm_order.len() as int);
    if offset == 0 || offset == 6 {
        (GazeDirection::StraightAhead, 0u8)
    } else {
        (arm_order[arm], ramp_step(offset))
    }
}

/// The row-major order of the arms.
pub open spec fn meander_order() -> Seq<GazeDirection> {
    seq![
        GazeDirection::NorthWest,
        GazeDirection::North,
        GazeDirection::NorthEast,
        GazeDirection::West,
        GazeDirection::East,
        GazeDirection::SouthWest,
        GazeDirection::South,
        GazeDirection::SouthEast,
    ]
}

/// The arms clockwise along the edge of the grid, from the top left.
pub open spec fn clockwise_order() -> Seq<GazeDirection> {
    seq![
        GazeDirection::NorthWest,
        GazeDirection::North,
        GazeDirection::NorthEast,
        GazeDirection::East,
        GazeDirection::SouthEast,
        GazeDirection::South,
        GazeDirection::SouthWest,
        GazeDirection::West,
    ]
}

/// The arms counter-clockwise along the edge of the grid, from the top left.
pub open spec fn anticlockwise_order() -> Seq<GazeDirection> {
    seq![
        GazeDirection::NorthWest,
        GazeDirection::West,
        GazeDirection::SouthWest,
        GazeDirection::South,
        GazeDirection::SouthEast,
        GazeDirection::East,
        GazeDirection::NorthEast,
        GazeDirection::North,
    ]
}

/// The two horizontal arms.
pub open spec fn hsweep_order() -> Seq<GazeDirection> {
    seq![GazeDirection::West, GazeDirection::East]
}

/// The two vertical arms.
pub open spec fn vsweep_order() -> Seq<GazeDirection> {
    seq![GazeDirection::North, GazeDirection::South]
}

/// The gaze and look step at index `idx` of a short sweep from West to East.
///
/// At the middle index the gaze is centred. Past it the gaze lies East, before it
/// West, at a step equal to the distance from the middle.
pub open spec fn sweep_pose(idx: u8) -> (GazeDirection, u8) {
    if idx == SHORT_SWEEP_MID_IDX {
        (GazeDirection::StraightAhead, 0u8)
    } else if idx > SHORT_SWEEP_MID_IDX {
        (GazeDirection::East, (idx - SHORT_SWEEP_MID_IDX) as u8)
    } else {
        (GazeDirection::West, (SHORT_SWEEP_MID_IDX - idx) as u8)
    }
}

impl GazeDirection {
    /// Ticks spent on one arm: centre, out by three steps, back by two, centre.
    pub const RT_STEPS_PER_ARM: usize = 7;

    /// Ticks of a sweep over two arms.
    pub const NUM_FULL_SWEEP_STEPS: usize = Self::RT_STEPS_PER_ARM * 2;

    /// The arms in row-major order.
    pub const CARDINAL_H8_ORDER: [GazeDirection; 8] = [
        GazeDirection::NorthWest,
        GazeDirection::North,
        GazeDirection::NorthEast,
        GazeDirection::West,
        GazeDirection::East,
        GazeDirection::SouthWest,
        GazeDirection::South,
        GazeDirection::SouthEast,
    ];

    /// The arms clockwise along the edge of the grid.
    pub const CARDINAL_CLOCK_EDGE_ORDER: [GazeDirection; 8] = [
        GazeDirection::NorthWest,
        GazeDirection::North,
        GazeDirection::NorthEast,
        GazeDirection::East,
        GazeDirection::SouthEast,
        GazeDirection::South,
        GazeDirection::SouthWest,
        GazeDirection::West,
    ];

    /// The arms counter-clockwise along the edge of the grid.
    pub const CARDINAL_ANTICLOCK_EDGE_ORDER: [GazeDirection; 8] = [
        GazeDirection::NorthWest,
        GazeDirection::West,
        GazeDirection::SouthWest,
        GazeDirection::South,
        GazeDirection::SouthEast,
        GazeDirection::East,
        GazeDirection::NorthEast,
        GazeDirection::North,
    ];

    /// The two horizontal arms.
    pub const CARDINAL_HSWEEP_ORDER: [GazeDirection; 2] = [
        GazeDirection::West,
        GazeDirection::East,
    ];

    /// The two vertical arms.
    pub const CARDINAL_VSWEEP_ORDER: [GazeDirection; 2] = [
        GazeDirection::North,
        GazeDirection::South,
    ];

    /// The position of the value in the enumeration, row by row.
    pub open spec fn ordinal(self) -> int {
        match self {
            GazeDirection::NorthWest => 0,
            GazeDirection::North => 1,
            GazeDirection::NorthEast => 2,
            GazeDirection::West => 3,
            GazeDirection::StraightAhead => 4,
            GazeDirection::East => 5,
            GazeDirection::SouthWest => 6,
            GazeDirection::South => 7,
            GazeDirection::SouthEast => 8,
            GazeDirection::MaxCount => 9,
        }
    }

    /// True of the nine directions, false of the count.
    pub open spec fn is_direction(self) -> bool {
        self != GazeDirection::MaxCount
    }

    /// The row of a direction on the grid, from the top.
    pub open spec fn grid_row(self) -> int {
        self.ordinal() / 3
    }

    /// The column of a direction on the grid, from the left.
    pub open spec fn grid_col(self) -> int {
        self.ordinal() % 3
    }

    /// The two-character code of a direction: the digit of its row, then that of its column.
    pub open spec fn code(self) -> Seq<char> {
        seq![(ASCII_ZERO + self.grid_row()) as char, (ASCII_ZERO + self.grid_col()) as char]
    }

    /// True of the nine directions, false of the count.
    pub fn is_a_direction(self) -> (is_direction: bool)
        ensures
            is_direction == self.is_direction(),
    {
        match self {
            GazeDirection::MaxCount => false,
            _ => true,
        }
    }

    /// The position of the value in the enumeration.
    pub fn to_primitive(self) -> (n: u8)
        ensures
            n == self.ordinal(),
    {
        match self {
            GazeDirection::NorthWest => 0,
            GazeDirection::North => 1,
            GazeDirection::NorthEast => 2,
            GazeDirection::West => 3,
            GazeDirection::StraightAhead => 4,
            GazeDirection::East => 5,
            GazeDirection::SouthWest => 6,
            GazeDirection::South => 7,
            GazeDirection::SouthEast => 8,
            GazeDirection::MaxCount => 9,
        }
    }

    /// The value at a position of the enumeration, if there is one.
    pub fn try_from_primitive(number: u8) -> (res: Option<GazeDirection>)
        ensures
            res is Some <==> number <= 9,
            res matches Some(d) ==> d.ordinal() == number,
    {
        match number {
            0 => Some(GazeDirection::NorthWest),
            1 => Some(GazeDirection::North),
            2 => Some(GazeDirection::NorthEast),
            3 => Some(GazeDirection::West),
            4 => Some(GazeDirection::StraightAhead),
            5 => Some(GazeDirection::East),
            6 => Some(GazeDirection::SouthWest),
            7 => Some(GazeDirection::South),
            8 => Some(GazeDirection::SouthEast),
            9 => Some(GazeDirection::MaxCount),
            _ => None,
        }
    }

    /// Returns the gaze and the look step at tick `counter` of a traversal of
    /// `arm_order`, for a counter that only ever grows.
    pub fn gaze_and_step_for_arm_order(counter: usize, arm_order: &[GazeDirection]) -> (res: (
        GazeDirection,
        u8,
    ))
        requires
            arm_order@.len() > 0,
        ensures
            res == arm_traversal(counter as nat, arm_order@),
    {
        let dir_raw: usize = counter / Self::RT_STEPS_PER_ARM;
        let offset: usize = counter % Self::RT_STEPS_PER_ARM;
        let direction_idx: usize = dir_raw % arm_order.len();
        if offset == 0 || offset == 6 {
            (GazeDirection::StraightAhead, 0)
        } else if offset == 1 || offset == 5 {
            (arm_order[direction_idx], 1)
        } else if offset == 2 || offset == 4 {
            (arm_order[direction_idx], 2)
        } else {
            (arm_order[direction_idx], 3)
        }
    }

    /// The traversal that visits the arms row by row.
    pub fn gaze_and_look_for_meander(mono_count: usize) -> (res: (GazeDirection, u8))
        ensures
            res == arm_traversal(mono_count as nat, meander_order()),
    {
        let order = Self::CARDINAL_H8_ORDER;
        assert(order@ =~= meander_order());
        Self::gaze_and_step_for_arm_order(mono_count, order.as_slice())
    }

    /// The traversal that visits the arms clockwise.
    pub fn gaze_and_step_for_sparse_star(mono_count: usize) -> (res: (GazeDirection, u8))
        ensures
            res == arm_traversal(mono_count as nat, clockwise_order()),
    {
        let order = Self::CARDINAL_CLOCK_EDGE_ORDER;
        assert(order@ =~= clockwise_order());
        Self::gaze_and_step_for_arm_order(mono_count, order.as_slice())
    }

    /// The traversal that visits the arms counter-clockwise.
    pub fn gaze_and_step_for_anticlock_star(mono_count: usize) -> (res: (GazeDirection, u8))
        ensures
            res == arm_traversal(mono_count as nat, anticlockwise_order()),
    {
        let order = Self::CARDINAL_ANTICLOCK_EDGE_ORDER;
        assert(order@ =~= anticlockwise_order());
        Self::gaze_and_step_for_arm_order(mono_count, order.as_slice())
    }

    /// The traversal that looks West, then East.
    pub fn gaze_and_step_for_hsweep(mono_count: usize) -> (res: (GazeDirection, u8))
        ensures
            res == arm_traversal(mono_count as nat, hsweep_order()),
    {
        let order = Self::CARDINAL_HSWEEP_ORDER;
        assert(order@ =~= hsweep_order());
        Self::gaze_and_step_for_arm_order(mono_count, order.as_slice())
    }

    /// The traversal that looks North, then South.
    pub fn gaze_and_step_for_vsweep(mono_count: usize) -> (res: (GazeDirection, u8))
        ensures
            res == arm_traversal(mono_count as nat, vsweep_order()),
    {
        let order = Self::CARDINAL_VSWEEP_ORDER;
        assert(order@ =~= vsweep_order());
        Self::gaze_and_step_for_arm_order(mono_count, order.as_slice())
    }

    /// Returns the gaze and the look step at index `idx` of a short West-to-East sweep.
    pub fn gaze_and_look_for_sweep_index(idx: u8) -> (res: (GazeDirection, u8))
        ensures
            res == sweep_pose(idx),
            idx < NUM_SHORT_SWEEP_STEPS ==> res.1 <= LAST_LOOK_STEP_IDX,
    {
        if idx == SHORT_SWEEP_MID_IDX {
            (GazeDirection::StraightAhead, 0)
        } else if idx >= SHORT_SWEEP_FLIP_IDX {
            (GazeDirection::East, idx - SHORT_SWEEP_MID_IDX)
        } else {
            (GazeDirection::West, SHORT_SWEEP_MID_IDX - idx)
        }
    }

    /// Returns the (row, column) of a direction on the 3x3 grid.
    pub fn row_col(&self) -> (rc: (u8, u8))
        requires
            self.is_direction(),
        ensures
            rc.0 == self.grid_row(),
            rc.1 == self.grid_col(),
            rc.0 <= 2,
            rc.1 <= 2,
    {
        match self {
            GazeDirection::NorthWest => (0, 0),
            GazeDirection::North => (0, 1),
            GazeDirection::NorthEast => (0, 2),
            GazeDirection::West => (1, 0),
            GazeDirection::StraightAhead => (1, 1),
            GazeDirection::East => (1, 2),
            GazeDirection::SouthWest => (2, 0),
            GazeDirection::South => (2, 1),
            _ => (2, 2),
        }
    }

    /// Returns the two-digit code of a direction.
    pub fn to_digits(&self) -> (digits: &'static str)
        requires
            self.is_direction(),
        ensures
            digits@ == self.code(),
    {
        proof {
            reveal_strlit("00");
            reveal_strlit("01");
            reveal_strlit("02");
            reveal_strlit("10");
            reveal_strlit("11");
            reveal_strlit("12");
            reveal_strlit("20");
            reveal_strlit("21");
            reveal_strlit("22");
        }
        let digits = match self {
            GazeDirection::NorthWest => "00",
            GazeDirection::North => "01",
            GazeDirection::NorthEast => "02",
            GazeDirection::West => "10",
            GazeDirection::StraightAhead => "11",
            GazeDirection::East => "12",
            GazeDirection::SouthWest => "20",
            GazeDirection::South => "21",
            _ => "22",
        };
        assert(digits@ =~= self.code());
        digits
    }
}

/// A traversal repeats after seven ticks for each of its arms.
pub proof fn lemma_arm_traversal_period(counter: nat, arm_order: Seq<GazeDirection>)
    requires
        arm_order.len() > 0,
    ensures
        arm_traversal(counter + 7 * arm_order.len(), arm_order) == arm_traversal(
            counter,
            arm_order,
        ),
{
    let n = arm_order.len() as int;
    let c = counter as int;
    assert((c + 7 * n) % 7 == c % 7 && (c + 7 * n) / 7 == c / 7 + n) by (nonlinear_arith)
        requires
            c >= 0,
            n > 0,
    ;
    assert((c / 7 + n) % n == (c / 7) % n) by (nonlinear_arith)
        requires
            c >= 0,
            n > 0,
    ;
}

/// On the first and on the last tick of every arm the gaze is centred at step 0,
/// whatever the arms are.
pub proof fn lemma_arm_traversal_rest(counter: nat, arm_order: Seq<GazeDirection>)
    requires
        counter % 7 == 0 || counter % 7 == 6,
    ensures
        arm_traversal(counter, arm_order) == (GazeDirection::StraightAhead, 0u8),
{
}

/// Over the five ticks between two rests the gaze stays on one arm of the order,
/// and the look step runs 1, 2, 3, 2, 1.
pub proof fn lemma_arm_traversal_ramp(counter: nat, arm_order: Seq<GazeDirection>)
    requires
        counter % 7 == 0,
        arm_order.len() > 0,
    ensures
        arm_traversal(counter + 1, arm_order).1 == 1,
        arm_traversal(counter + 2, arm_order).1 == 2,
        arm_traversal(counter + 3, arm_order).1 == 3,
        arm_traversal(counter + 4, arm_order).1 == 2,
        arm_traversal(counter + 5, arm_order).1 == 1,
        forall|k: nat|
            1 <= k <= 5 ==> (#[trigger] arm_traversal(counter + k, arm_order)).0 == arm_order[(
            counter as int / 7) % (arm_order.len() as int)],
{
}

/// The look step of a traversal depends on the counter's remainder by seven alone,
/// and never exceeds the last look step.
pub proof fn lemma_arm_traversal_step(counter: nat, arm_order: Seq<GazeDirection>)
    ensures
        arm_traversal(counter, arm_order).1 == ramp_step(counter as int % 7),
        arm_traversal(counter, arm_order).1 <= LAST_LOOK_STEP_IDX,
{
}

/// A traversal only ever shows the centre or one of the arms it was given.
pub proof fn lemma_arm_traversal_stays_on_arms(counter: nat, arm_order: Seq<GazeDirection>)
    requires
        arm_order.len() > 0,
    ensures
        arm_traversal(counter, arm_order).0 == GazeDirection::StraightAhead || arm_order.contains(
            arm_traversal(counter, arm_order).0,
        ),
{
    let n = arm_order.len() as int;
    let q = counter as int / 7;
    assert(0 <= q % n < n) by (nonlinear_arith)
        requires
            q >= 0,
            n > 0,
    ;
}

/// No two directions share a cell of the grid.
pub proof fn lemma_grid_cell_unique(a: GazeDirection, b: GazeDirection)
    requires
        a.is_direction(),
        b.is_direction(),
        a.grid_row() == b.grid_row(),
        a.grid_col() == b.grid_col(),
    ensures
        a == b,
{
}

/// Every direction lies on the 3x3 grid, and the centre cell is straight ahead.
pub proof fn lemma_grid_cell_bounds(d: GazeDirection)
    requires
        d.is_direction(),
    ensures
        0 <= d.grid_row() <= 2,
        0 <= d.grid_col() <= 2,
        (d.grid_row() == 1 && d.grid_col() == 1) <==> d == GazeDirection::StraightAhead,
{
}

/// The code of a direction is two decimal digits, and no two directions share one.
pub proof fn lemma_code_unique(a: GazeDirection, b: GazeDirection)
    requires
        a.is_direction(),
        b.is_direction(),
        a.code() == b.code(),
    ensures
        a == b,
{
    assert(a.code()[0] == b.code()[0]);
    assert(a.code()[1] == b.code()[1]);
}

/// The code of straight ahead is "11".
pub proof fn lemma_code_of_centre()
    ensures
        GazeDirection::StraightAhead.code() == seq!['1', '1'],
{
    assert(GazeDirection::StraightAhead.code() =~= seq!['1', '1']);
}

} // verus!
