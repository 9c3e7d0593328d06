//! The motion engine: tilt becomes movement of one marker on the grid.
//!
//! All quantities are fixed-point integers. Angles and tilt magnitudes count
//! hundredths of a degree, coordinates count hundred-thousandths of a cell,
//! elapsed time counts microseconds, and the speed multiplier is a fraction of
//! `MULTIPLIER_ONE`.

use vstd::prelude::*;

verus! {

/// A tilt of 90 degrees, at which the speed ramp ends.
pub const FULL_TILT: u32 = 9_000;

/// The speed multiplier 1.0. It is `FULL_TILT` to the fourth power, so that the
/// ramp is exact at every hundredth of a degree.
pub const MULTIPLIER_ONE: u64 = 6_561_000_000_000_000;

/// Coordinate units per cell.
pub const SUBCELLS: u32 = 100_000;

/// Speed along an axis, in coordinate units per second: 1.0 cell.
pub const AXIS_SPEED: i32 = 100_000;

/// Speed along each axis of a diagonal, in coordinate units per second:
/// 0.70710 cell.
pub const DIAGONAL_SPEED: i32 = 70_710;

pub const MICROS_PER_SECOND: u32 = 1_000_000;

/// A cell of the grid.
#[derive(Debug, Clone, Copy, PartialEq, Eq, Structural)]
pub struct Position {
    pub x: u8,
    pub y: u8,
}

/// The eight compass octants, and `Stay` for the dead zone.
#[derive(Debug, Clone, Copy, PartialEq, Eq, Structural)]
pub enum Direction {
    East,
    NorthEast,
    North,
    NorthWest,
    West,
    SouthWest,
    South,
    SouthEast,
    Stay,
}

/// A tilt in polar form: how far the device leans, and towards where.
#[derive(Debug, Clone, Copy, PartialEq, Eq, Structural)]
pub struct Tilt {
    /// Hundredths of a degree.
    pub magnitude: u32,
    /// Hundredths of a degree, counter-clockwise from East.
    pub angle: i32,
}

/// How a tilt moves the marker: smoothly over time, or one cell at a time.
#[derive(Debug, Clone, Copy, PartialEq, Eq, Structural)]
pub enum Mode {
    Continuous,
    Discrete,
}

/// The octant of an angle. Each interval includes its lower bound and excludes
/// its upper bound; what no interval holds is West.
pub open spec fn octant(angle: int) -> Direction {
    if -2_250 <= angle < 2_250 {
        Direction::East
    } else if 2_250 <= angle < 6_750 {
        Direction::NorthEast
    } else if 6_750 <= angle < 11_250 {
        Direction::North
    } else if 11_250 <= angle < 15_750 {
        Direction::NorthWest
    } else if -6_750 <= angle < -2_250 {
        Direction::SouthEast
    } else if -11_250 <= angle < -6_750 {
        Direction::South
    } else if -15_750 <= angle < -11_250 {
        Direction::SouthWest
    } else {
        Direction::West
    }
}

/// The direction a tilt asks for: none below the threshold, else its octant.
pub open spec fn direction_of(tilt: Tilt, movement_threshold: u32) -> Direction {
    if tilt.magnitude < movement_threshold {
        Direction::Stay
    } else {
        octant(tilt.angle as int)
    }
}

/// `value` brought into `0 ..= limit`.
pub open spec fn clamped(value: int, limit: int) -> int {
    if value < 0 {
        0
    } else if value > limit {
        limit
    } else {
        value
    }
}

/// How far a velocity carries in `elapsed_micros` at a speed multiplier,
/// rounded towards zero.
pub open spec fn displacement_of(velocity: int, elapsed_micros: int, multiplier: int) -> int {
    if velocity >= 0 {
        (velocity * elapsed_micros * multiplier) / (MICROS_PER_SECOND * MULTIPLIER_ONE)
    } else {
        -(((-velocity) * elapsed_micros * multiplier) / (MICROS_PER_SECOND * MULTIPLIER_ONE))
    }
}

/// The speed multiplier at a tilt magnitude. With `t` the magnitude as a
/// fraction of `FULL_TILT`, capped at 1, it is `1 + (1 - (1 - t)^4) * 15`.
pub open spec fn ease_out(magnitude: int) -> int {
    let capped = if magnitude > FULL_TILT {
        FULL_TILT as int
    } else {
        magnitude
    };
    let rest = FULL_TILT - capped;
    MULTIPLIER_ONE + (MULTIPLIER_ONE - rest * rest * rest * rest) * 15
}

/// The cell reached from `position` by one step, stopping at the grid's edges.
pub open spec fn stepped(position: Position, direction: Direction, width: u8, height: u8)
    -> Position {
    Position {
        x: clamped(position.x + direction.spec_step().0, width - 1) as u8,
        y: clamped(position.y + direction.spec_step().1, height - 1) as u8,
    }
}

impl Direction {
    /// The step of one cell in this direction: East is `+x`, North is `+y`.
    pub open spec fn spec_step(self) -> (int, int) {
        match self {
            Direction::East => (1, 0),
            Direction::NorthEast => (1, 1),
            Direction::North => (0, 1),
            Direction::NorthWest => (-1, 1),
            Direction::West => (-1, 0),
            Direction::SouthWest => (-1, -1),
            Direction::South => (0, -1),
            Direction::SouthEast => (1, -1),
            Direction::Stay => (0, 0),
        }
    }

    /// The velocity in this direction, in coordinate units per second.
    pub open spec fn spec_velocity(self) -> (int, int) {
        match self {
            Direction::East => (AXIS_SPEED as int, 0),
            Direction::NorthEast => (DIAGONAL_SPEED as int, DIAGONAL_SPEED as int),
            Direction::North => (0, AXIS_SPEED as int),
            Direction::NorthWest => (-DIAGONAL_SPEED, DIAGONAL_SPEED as int),
            Direction::West => (-AXIS_SPEED, 0),
            Direction::SouthWest => (-DIAGONAL_SPEED, -DIAGONAL_SPEED),
            Direction::South => (0, -AXIS_SPEED),
            Direction::SouthEast => (DIAGONAL_SPEED as int, -DIAGONAL_SPEED),
            Direction::Stay => (0, 0),
        }
    }

    /// The octant of an angle in hundredths of a degree.
    pub fn from_angle(angle: i32) -> (out: Direction)
        ensures
            out == octant(angle as int),
    {
        if angle < -15_750 {
            Direction::West
        } else if angle < -11_250 {
            Direction::SouthWest
        } else if angle < -6_750 {
            Direction::South
        } else if angle < -2_250 {
            Direction::SouthEast
        } else if angle < 2_250 {
            Direction::East
        } else if angle < 6_750 {
            Direction::NorthEast
        } else if angle < 11_250 {
            Direction::North
        } else if angle < 15_750 {
            Direction::NorthWest
        } else {
            Direction::West
        }
    }

    /// The step of one cell in this direction, as `(dx, dy)`.
    pub fn step(self) -> (out: (i8, i8))
        ensures
            (out.0 as int, out.1 as int) == self.spec_step(),
    {
        match self {
            Direction::East => (1, 0),
            Direction::NorthEast => (1, 1),
            Direction::North => (0, 1),
            Direction::NorthWest => (-1, 1),
            Direction::West => (-1, 0),
            Direction::SouthWest => (-1, -1),
            Direction::South => (0, -1),
            Direction::SouthEast => (1, -1),
            Direction::Stay => (0, 0),
        }
    }

    /// The velocity in this direction, as `(vx, vy)` in coordinate units per
    /// second.
    pub fn velocity(self) -> (out: (i32, i32))
        ensures
            (out.0 as int, out.1 as int) == self.spec_velocity(),
    {
        match self {
            Direction::East => (AXIS_SPEED, 0),
            Direction::NorthEast => (DIAGONAL_SPEED, DIAGONAL_SPEED),
            Direction::North => (0, AXIS_SPEED),
            Direction::NorthWest => (-DIAGONAL_SPEED, DIAGONAL_SPEED),
            Direction::West => (-AXIS_SPEED, 0),
            Direction::SouthWest => (-DIAGONAL_SPEED, -DIAGONAL_SPEED),
            Direction::South => (0, -AXIS_SPEED),
            Direction::SouthEast => (DIAGONAL_SPEED, -DIAGONAL_SPEED),
            Direction::Stay => (0, 0),
        }
    }
}

impl Tilt {
    pub fn new(magnitude: u32, angle: i32) -> (out: Tilt)
        ensures
            out == (Tilt { magnitude, angle }),
    {
        Tilt { magnitude, angle }
    }

    /// The direction this tilt asks for, given the dead zone's radius.
    pub fn direction(&self, movement_threshold: u32) -> (out: Direction)
        ensures
            out == direction_of(*self, movement_threshold),
    {
        if self.magnitude < movement_threshold {
            Direction::Stay
        } else {
            Direction::from_angle(self.angle)
        }
    }
}

impl Position {
    /// Moves one cell in `direction` on a grid of the given size, stopping at
    /// its edges.
    pub fn step(self, direction: Direction, width: u8, height: u8) -> (out: Position)
        requires
            self.x < width,
            self.y < height,
        ensures
            out == stepped(self, direction, width, height),
            out.x < width,
            out.y < height,
    {
        let (dx, dy) = direction.step();
        Position { x: step_axis(self.x, dx, width), y: step_axis(self.y, dy, height) }
    }
}

fn step_axis(coordinate: u8, delta: i8, size: u8) -> (out: u8)
    requires
        coordinate < size,
        -1 <= delta <= 1,
    ensures
        out == clamped(coordinate + delta, size - 1),
        out < size,
{
    if delta > 0 {
        if coordinate < size - 1 {
            coordinate + 1
        } else {
            coordinate
        }
    } else if delta < 0 {
        if coordinate > 0 {
            coordinate - 1
        } else {
            coordinate
        }
    } else {
        coordinate
    }
}

/// The speed multiplier for a tilt magnitude in hundredths of a degree, as a
/// fraction of `MULTIPLIER_ONE`.
pub fn speed_multiplier(magnitude: u32) -> (out: u64)
    ensures
        out == ease_out(magnitude as int),
        MULTIPLIER_ONE <= out <= 16 * MULTIPLIER_ONE,
{
    let capped: u64 = if magnitude > FULL_TILT {
        FULL_TILT as u64
    } else {
        magnitude as u64
    };
    let rest: u64 = FULL_TILT as u64 - capped;
    assert(rest * rest <= 81_000_000) by (nonlinear_arith)
        requires
            0 <= rest <= 9_000,
    ;
    let square: u64 = rest * rest;
    assert(square * square <= 6_561_000_000_000_000) by (nonlinear_arith)
        requires
            0 <= square <= 81_000_000,
    ;
    let fourth: u64 = square * square;
    assert(fourth == rest * rest * rest * rest) by (nonlinear_arith)
        requires
            fourth == (rest * rest) * (rest * rest),
    ;
    MULTIPLIER_ONE + (MULTIPLIER_ONE - fourth) * 15
}

/// How far `velocity` carries in `elapsed_micros` at `multiplier`, rounded
/// towards zero.
pub fn displacement(velocity: i32, elapsed_micros: u32, multiplier: u64) -> (out: i64)
    ensures
        out == displacement_of(velocity as int, elapsed_micros as int, multiplier as int),
{
    let speed: u128 = if velocity >= 0 {
        velocity as u128
    } else {
        (-(velocity as i64)) as u128
    };
    assert(speed * elapsed_micros <= 0x8000_0000 * 0xffff_ffff) by (nonlinear_arith)
        requires
            0 <= speed <= 0x8000_0000,
            0 <= elapsed_micros <= 0xffff_ffff,
    ;
    assert(0 <= speed * elapsed_micros) by (nonlinear_arith)
        requires
            0 <= speed,
            0 <= elapsed_micros,
    ;
    let scaled: u128 = speed * (elapsed_micros as u128);
    assert(scaled * multiplier <= 0x8000_0000 * 0xffff_ffff * 0xffff_ffff_ffff_ffff)
        by (nonlinear_arith)
        requires
            0 <= scaled <= 0x8000_0000 * 0xffff_ffff,
            0 <= multiplier <= 0xffff_ffff_ffff_ffff,
    ;
    assert(0 <= scaled * multiplier) by (nonlinear_arith)
        requires
            0 <= scaled,
            0 <= multiplier,
    ;
    let product: u128 = scaled * (multiplier as u128);
    assert(MICROS_PER_SECOND * MULTIPLIER_ONE == 6_561_000_000_000_000_000_000) by (nonlinear_arith)
        requires
            MICROS_PER_SECOND == 1_000_000,
            MULTIPLIER_ONE == 6_561_000_000_000_000,
    ;
    let divisor: u128 = (MICROS_PER_SECOND as u128) * (MULTIPLIER_ONE as u128);
    let distance: u128 = product / divisor;
    if velocity >= 0 {
        distance as i64
    } else {
        -(distance as i64)
    }
}

/// Moves a coordinate by a displacement and keeps it in `0 ..= limit`.
pub fn advance(coordinate: u32, displacement: i64, limit: u32) -> (out: u32)
    ensures
        out == clamped(coordinate + displacement, limit as int),
{
    let target: i128 = coordinate as i128 + displacement as i128;
    if target < 0 {
        0
    } else if target > limit as i128 {
        limit
    } else {
        target as u32
    }
}

/// What a game knows: the grid, the dead zone, and where the marker is.
pub struct GameState {
    pub width: u8,
    pub height: u8,
    /// Tilt magnitudes below this, in hundredths of a degree, move nothing.
    pub movement_threshold: u32,
    pub fractional_x: u32,
    pub fractional_y: u32,
    pub curr_pos: Position,
}

impl GameState {
    /// The largest coordinate along an axis of `size` cells.
    pub open spec fn limit(size: u8) -> int {
        (size - 1) * SUBCELLS
    }

    /// The coordinates lie on the grid and the cell is the one they fall in.
    pub open spec fn wf(self) -> bool {
        &&& self.width >= 1
        &&& self.height >= 1
        &&& self.fractional_x <= Self::limit(self.width)
        &&& self.fractional_y <= Self::limit(self.height)
        &&& self.curr_pos.x == self.fractional_x / SUBCELLS
        &&& self.curr_pos.y == self.fractional_y / SUBCELLS
    }

    /// The state with its coordinates moved by `(dx, dy)`, kept on the grid,
    /// and the cell they then fall in.
    pub open spec fn moved_by(self, dx: int, dy: int) -> GameState {
        let x = clamped(self.fractional_x + dx, Self::limit(self.width));
        let y = clamped(self.fractional_y + dy, Self::limit(self.height));
        GameState {
            fractional_x: x as u32,
            fractional_y: y as u32,
            curr_pos: Position { x: (x / (SUBCELLS as int)) as u8, y: (y / (SUBCELLS as int)) as u8 },
            ..self
        }
    }

    /// One tick of continuous movement.
    pub open spec fn continuous(self, tilt: Tilt, elapsed_micros: u32, multiplier: u64)
        -> GameState {
        let direction = direction_of(tilt, self.movement_threshold);
        if direction == Direction::Stay {
            self
        } else {
            self.moved_by(
                displacement_of(
                    direction.spec_velocity().0,
                    elapsed_micros as int,
                    multiplier as int,
                ),
                displacement_of(
                    direction.spec_velocity().1,
                    elapsed_micros as int,
                    multiplier as int,
                ),
            )
        }
    }

    /// One discrete move: a whole cell along each axis of the direction.
    pub open spec fn discrete(self, tilt: Tilt) -> GameState {
        let direction = direction_of(tilt, self.movement_threshold);
        if direction == Direction::Stay {
            self
        } else {
            self.moved_by(direction.spec_step().0 * SUBCELLS, direction.spec_step().1 * SUBCELLS)
        }
    }

    /// One tick in the given mode. Continuous movement runs at the speed the
    /// tilt's own magnitude gives.
    pub open spec fn updated(self, mode: Mode, tilt: Tilt, elapsed_micros: u32) -> GameState {
        match mode {
            Mode::Continuous => self.continuous(
                tilt,
                elapsed_micros,
                ease_out(tilt.magnitude as int) as u64,
            ),
            Mode::Discrete => self.discrete(tilt),
        }
    }
}

/// The game: one marker on a grid, moved by tilting.
pub struct MiniGame {
    curr_pos: Position,
    fractional_x: u32,
    fractional_y: u32,
    movement_threshold: u32,
    width: u8,
    height: u8,
}

impl View for MiniGame {
    type V = GameState;

    closed spec fn view(&self) -> GameState {
        GameState {
            width: self.width,
            height: self.height,
            movement_threshold: self.movement_threshold,
            fractional_x: self.fractional_x,
            fractional_y: self.fractional_y,
            curr_pos: self.curr_pos,
        }
    }
}

impl MiniGame {
    #[verifier::type_invariant]
    spec fn well_formed(self) -> bool {
        self@.wf()
    }

    /// A game on a grid of the given size with the marker at its centre.
    pub fn new(width: u8, height: u8, movement_threshold: u32) -> (out: Self)
        requires
            width >= 1,
            height >= 1,
        ensures
            out@.wf(),
            out@.width == width,
            out@.height == height,
            out@.movement_threshold == movement_threshold,
            out@.fractional_x == GameState::limit(width) / 2,
            out@.fractional_y == GameState::limit(height) / 2,
    {
        let fractional_x: u32 = (width as u32 - 1) * SUBCELLS / 2;
        let fractional_y: u32 = (height as u32 - 1) * SUBCELLS / 2;
        MiniGame {
            curr_pos: Position {
                x: (fractional_x / SUBCELLS) as u8,
                y: (fractional_y / SUBCELLS) as u8,
            },
            fractional_x,
            fractional_y,
            movement_threshold,
            width,
            height,
        }
    }

    /// The cell the marker is shown in.
    pub fn curr_pos(&self) -> (out: Position)
        ensures
            out == self@.curr_pos,
            self@.wf(),
    {
        proof {
            use_type_invariant(self);
        }
        self.curr_pos
    }

    /// The marker's coordinates, in units of `1 / SUBCELLS` cell.
    pub fn fractional(&self) -> (out: (u32, u32))
        ensures
            out == (self@.fractional_x, self@.fractional_y),
            self@.wf(),
    {
        proof {
            use_type_invariant(self);
        }
        (self.fractional_x, self.fractional_y)
    }

    fn moved_by(&self, dx: i64, dy: i64) -> (out: MiniGame)
        ensures
            out@ == self@.moved_by(dx as int, dy as int),
    {
        proof {
            use_type_invariant(self);
        }
        let limit_x: u32 = (self.width as u32 - 1) * SUBCELLS;
        let limit_y: u32 = (self.height as u32 - 1) * SUBCELLS;
        let fractional_x: u32 = advance(self.fractional_x, dx, limit_x);
        let fractional_y: u32 = advance(self.fractional_y, dy, limit_y);
        MiniGame {
            curr_pos: Position {
                x: (fractional_x / SUBCELLS) as u8,
                y: (fractional_y / SUBCELLS) as u8,
            },
            fractional_x,
            fractional_y,
            movement_threshold: self.movement_threshold,
            width: self.width,
            height: self.height,
        }
    }

    /// Continuous mode: moves the marker along the tilt's direction for the
    /// elapsed time, faster with a larger multiplier. A tilt in the dead zone
    /// changes nothing.
    ///
    /// `multiplier` is a fraction of `MULTIPLIER_ONE`; `speed_multiplier` gives
    /// the one that belongs to a tilt.
    pub fn update_position_with_delta(&mut self, tilt: Tilt, elapsed_micros: u32, multiplier: u64)
        ensures
            final(self)@ == old(self)@.continuous(tilt, elapsed_micros, multiplier),
            final(self)@.wf(),
    {
        let direction: Direction = tilt.direction(self.movement_threshold);
        if direction != Direction::Stay {
            let (vx, vy) = direction.velocity();
            let dx: i64 = displacement(vx, elapsed_micros, multiplier);
            let dy: i64 = displacement(vy, elapsed_micros, multiplier);
            let next: MiniGame = self.moved_by(dx, dy);
            *self = next;
        }
        proof {
            use_type_invariant(&*self);
        }
    }

    /// Discrete mode: moves the marker one cell along the tilt's direction,
    /// stopping at the grid's edges. A tilt in the dead zone changes nothing.
    pub fn update_position_discrete(&mut self, tilt: Tilt)
        ensures
            final(self)@ == old(self)@.discrete(tilt),
            final(self)@.wf(),
            final(self)@.curr_pos == stepped(
                old(self)@.curr_pos,
                direction_of(tilt, old(self)@.movement_threshold),
                old(self)@.width,
                old(self)@.height,
            ),
    {
        proof {
            use_type_invariant(&*self);
            lemma_discrete_moves_one_cell(self@, tilt);
        }
        let direction: Direction = tilt.direction(self.movement_threshold);
        if direction != Direction::Stay {
            let (sx, sy) = direction.step();
            assert(-1 <= sx <= 1 && -1 <= sy <= 1);
            let dx: i64 = sx as i64 * SUBCELLS as i64;
            let dy: i64 = sy as i64 * SUBCELLS as i64;
            let next: MiniGame = self.moved_by(dx, dy);
            *self = next;
        }
    }

    /// One tick in the given mode, at the speed the tilt's magnitude gives.
    pub fn update(&mut self, mode: Mode, tilt: Tilt, elapsed_micros: u32)
        ensures
            final(self)@ == old(self)@.updated(mode, tilt, elapsed_micros),
            final(self)@.wf(),
    {
        match mode {
            Mode::Continuous => {
                let multiplier: u64 = speed_multiplier(tilt.magnitude);
                self.update_position_with_delta(tilt, elapsed_micros, multiplier);
            },
            Mode::Discrete => {
                self.update_position_discrete(tilt);
            },
        }
    }
}

/// Every direction but `Stay` has exactly one interval of angles, 45 degrees
/// wide, that holds its lower bound and not its upper bound. West has the two
/// ends of the circle and all that lies beyond them.
pub proof fn lemma_octant_intervals(angle: int)
    ensures
        octant(angle) == Direction::East <==> -2_250 <= angle < 2_250,
        octant(angle) == Direction::NorthEast <==> 2_250 <= angle < 6_750,
        octant(angle) == Direction::North <==> 6_750 <= angle < 11_250,
        octant(angle) == Direction::NorthWest <==> 11_250 <= angle < 15_750,
        octant(angle) == Direction::West <==> angle >= 15_750 || angle < -15_750,
        octant(angle) == Direction::SouthWest <==> -15_750 <= angle < -11_250,
        octant(angle) == Direction::South <==> -11_250 <= angle < -6_750,
        octant(angle) == Direction::SouthEast <==> -6_750 <= angle < -2_250,
        octant(angle) != Direction::Stay,
{
}

/// In the dead zone the marker and its coordinates stay as they are, in either
/// mode and whatever the elapsed time and the speed multiplier.
pub proof fn lemma_dead_zone_keeps_state(
    state: GameState,
    tilt: Tilt,
    elapsed_micros: u32,
    multiplier: u64,
)
    requires
        tilt.magnitude < state.movement_threshold,
    ensures
        state.continuous(tilt, elapsed_micros, multiplier) == state,
        state.discrete(tilt) == state,
{
}

/// Continuous movement keeps the coordinates on the grid and the cell under
/// them.
pub proof fn lemma_continuous_keeps_wf(
    state: GameState,
    tilt: Tilt,
    elapsed_micros: u32,
    multiplier: u64,
)
    requires
        state.wf(),
    ensures
        state.continuous(tilt, elapsed_micros, multiplier).wf(),
{
}

/// A discrete move takes the marker to the neighbouring cell in the tilt's
/// direction, or leaves it where the grid ends.
pub proof fn lemma_discrete_moves_one_cell(state: GameState, tilt: Tilt)
    requires
        state.wf(),
    ensures
        state.discrete(tilt).wf(),
        state.discrete(tilt).curr_pos == stepped(
            state.curr_pos,
            direction_of(tilt, state.movement_threshold),
            state.width,
            state.height,
        ),
{
}

/// From the far corner of any grid a step towards NorthEast stays in the
/// corner.
pub proof fn lemma_north_east_corner_saturates(width: u8, height: u8)
    requires
        width >= 1,
        height >= 1,
    ensures
        stepped(
            Position { x: (width - 1) as u8, y: (height - 1) as u8 },
            Direction::NorthEast,
            width,
            height,
        ) == (Position { x: (width - 1) as u8, y: (height - 1) as u8 }),
{
}

/// A step never leaves the grid.
pub proof fn lemma_step_stays_on_grid(
    position: Position,
    direction: Direction,
    width: u8,
    height: u8,
)
    requires
        position.x < width,
        position.y < height,
    ensures
        stepped(position, direction, width, height).x < width,
        stepped(position, direction, width, height).y < height,
{
}

/// The speed multiplier is 1.0 without tilt, 16.0 from `FULL_TILT` on, and in
/// between everywhere.
pub proof fn lemma_speed_multiplier_range(magnitude: int)
    requires
        0 <= magnitude,
    ensures
        ease_out(0) == MULTIPLIER_ONE,
        magnitude >= FULL_TILT ==> ease_out(magnitude) == 16 * MULTIPLIER_ONE,
        MULTIPLIER_ONE <= ease_out(magnitude) <= 16 * MULTIPLIER_ONE,
{
    lemma_fourth_power_bounds(FULL_TILT as int);
    if magnitude < FULL_TILT {
        lemma_fourth_power_bounds(FULL_TILT - magnitude);
    } else {
        lemma_fourth_power_bounds(0);
    }
}

/// Up to `FULL_TILT` the speed multiplier grows strictly with the tilt.
pub proof fn lemma_speed_multiplier_increases(smaller: int, larger: int)
    requires
        0 <= smaller < larger <= FULL_TILT,
    ensures
        ease_out(smaller) < ease_out(larger),
{
    let a: int = FULL_TILT - larger;
    let b: int = FULL_TILT - smaller;
    assert(a * a * a * a < b * b * b * b) by (nonlinear_arith)
        requires
            0 <= a < b,
    ;
}

proof fn lemma_fourth_power_bounds(rest: int)
    requires
        0 <= rest <= 9_000,
    ensures
        0 <= rest * rest * rest * rest <= 6_561_000_000_000_000,
        rest == 9_000 ==> rest * rest * rest * rest == 6_561_000_000_000_000,
        rest == 0 ==> rest * rest * rest * rest == 0,
{
    assert(0 <= rest * rest <= 81_000_000) by (nonlinear_arith)
        requires
            0 <= rest <= 9_000,
    ;
    let square: int = rest * rest;
    assert(0 <= square * square <= 6_561_000_000_000_000) by (nonlinear_arith)
        requires
            0 <= square <= 81_000_000,
    ;
    assert(rest * rest * rest * rest == square * square) by (nonlinear_arith)
        requires
            square == rest * rest,
    ;
    if rest == 9_000 {
        assert(square == 81_000_000);
        assert(square * square == 6_561_000_000_000_000) by (nonlinear_arith)
            requires
                square == 81_000_000,
        ;
    }
}

} // verus!
