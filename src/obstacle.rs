//! A wall with one gap, its collision test and the rows its blocks occupy.
use crate::player::Player;
use crate::rng::random_range;
use crate::{PLAYER_SPRITE_HEIGHT, PLAYER_SPRITE_WIDTH, SCREEN_HEIGHT, SUBCELLS, WALL_SPRITE_HEIGHT};
use bracket_lib::prelude::RandomNumberGenerator;
use vstd::prelude::*;

verus! {

/// Lowest gap centre a new wall can have (inclusive).
pub const GAP_Y_MIN: i32 = 10;

/// Bound on the gap centre of a new wall (exclusive).
pub const GAP_Y_MAX: i32 = 40;

/// Gap height of a wall made at score zero.
pub const START_GAP_SIZE: i32 = 20;

/// Smallest gap height, however high the score.
pub const MIN_GAP_SIZE: i32 = 8;

/// A wall at world column `x` whose gap is centred on row `gap_y` and is
/// `size` rows high.
#[derive(Clone, Copy, Debug, PartialEq, Eq, Structural)]
pub struct Obstacle {
    pub x: i32,
    pub gap_y: i32,
    pub size: i32,
}

/// Gap height of a wall made at `score`: shrinks by one per point, floored.
pub open spec fn gap_size_for(score: int) -> int {
    if START_GAP_SIZE - score > MIN_GAP_SIZE {
        START_GAP_SIZE - score
    } else {
        MIN_GAP_SIZE as int
    }
}

/// Number of wall blocks drawn from row `start` (inclusive) to row `end`
/// (exclusive), one every block height.
pub open spec fn block_count(start: int, end: int) -> int {
    if end > start {
        (end - start + WALL_SPRITE_HEIGHT - 1) / WALL_SPRITE_HEIGHT as int
    } else {
        0
    }
}

/// The rows `start, start + 2, ...` below `end`, in order.
pub open spec fn is_block_rows(r: Seq<i32>, start: int, end: int) -> bool {
    &&& r.len() == block_count(start, end)
    &&& forall|i: int| 0 <= i < r.len() ==> r[i] == start + WALL_SPRITE_HEIGHT * i
}

/// Row offset that aligns the upper wall's blocks to the block grid, so that
/// the bottom block ends exactly at the gap.
pub open spec fn upper_start(upper: int) -> int {
    -(upper % WALL_SPRITE_HEIGHT as int)
}

/// The block rows from `start` up to (not including) `end`.
fn block_rows(start: i32, end: i32) -> (r: Vec<i32>)
    requires
        end <= i32::MAX - WALL_SPRITE_HEIGHT,
    ensures
        is_block_rows(r@, start as int, end as int),
{
    let mut rows: Vec<i32> = Vec::new();
    if start >= end {
        return rows;
    }
    let mut y: i32 = start;
    while y < end
        invariant
            start <= y <= end + 1,
            start < end <= i32::MAX - WALL_SPRITE_HEIGHT,
            (y - start) % WALL_SPRITE_HEIGHT as int == 0,
            rows@.len() == (y - start) / WALL_SPRITE_HEIGHT as int,
            forall|i: int| 0 <= i < rows@.len() ==> rows@[i] == start + WALL_SPRITE_HEIGHT * i,
        decreases end + 1 - y,
    {
        rows.push(y);
        y = y + WALL_SPRITE_HEIGHT;
    }
    rows
}

impl Obstacle {
    /// Values every wall the game makes has: gap centre and height in range.
    pub open spec fn wf(self) -> bool {
        &&& GAP_Y_MIN <= self.gap_y < GAP_Y_MAX
        &&& MIN_GAP_SIZE <= self.size <= START_GAP_SIZE
    }

    /// Top row of the gap.
    pub open spec fn gap_top(self) -> int {
        self.gap_y - self.size / 2
    }

    /// Bottom row of the gap.
    pub open spec fn gap_bottom(self) -> int {
        self.gap_y + self.size / 2
    }

    /// Whether `p`'s hit box meets this wall: the box spans columns
    /// `[x, x + 8]` and four rows centred on the player's cell row; it hits when
    /// the wall's column lies in `(x, x + 8]` and the box reaches above or
    /// below the gap.
    pub open spec fn collides(self, p: Player) -> bool {
        let hit_box_height = PLAYER_SPRITE_HEIGHT / 2;
        let top = p.y as int / SUBCELLS as int - hit_box_height / 2;
        let bottom = top + hit_box_height;
        &&& p.x < self.x <= p.x + PLAYER_SPRITE_WIDTH
        &&& (top < self.gap_top() || bottom > self.gap_bottom())
    }

    /// The wall at column `x`, made at `score`, with its gap centred on `gap_y`.
    pub fn with_gap(x: i32, score: i32, gap_y: i32) -> (r: Obstacle)
        requires
            score >= 0,
            GAP_Y_MIN <= gap_y < GAP_Y_MAX,
        ensures
            r == (Obstacle { x, gap_y, size: gap_size_for(score as int) as i32 }),
            r.wf(),
    {
        let size = if START_GAP_SIZE - score > MIN_GAP_SIZE {
            START_GAP_SIZE - score
        } else {
            MIN_GAP_SIZE
        };
        Obstacle { x, gap_y, size }
    }

    /// A wall at column `x`, made at `score`, with its gap centre drawn
    /// uniformly from `[10, 40)` by `rng`.
    pub fn new(x: i32, score: i32, rng: &mut RandomNumberGenerator) -> (r: Obstacle)
        requires
            score >= 0,
        ensures
            r.x == x,
            r.size == gap_size_for(score as int),
            GAP_Y_MIN <= r.gap_y < GAP_Y_MAX,
            r.wf(),
    {
        let gap_y = random_range(rng, GAP_Y_MIN, GAP_Y_MAX);
        Obstacle::with_gap(x, score, gap_y)
    }

    /// Whether the player's hit box meets this wall.
    pub fn hit_obstacle(&self, player: &Player) -> (r: bool)
        requires
            self.wf(),
            player.y >= 0,
        ensures
            r == self.collides(*player),
    {
        let hit_box_height = PLAYER_SPRITE_HEIGHT / 2;
        let top = player.y / SUBCELLS - hit_box_height / 2;
        let bottom = top + hit_box_height;
        let half_size = self.size / 2;
        let x1 = player.x as i64;
        let x2 = player.x as i64 + PLAYER_SPRITE_WIDTH as i64;
        let does_x_match = x1 < self.x as i64 && x2 >= self.x as i64;
        let above_gap = top < self.gap_y - half_size;
        let below_gap = bottom > self.gap_y + half_size;
        does_x_match && (above_gap || below_gap)
    }

    /// Screen column of the wall when the player is at world column `player_x`.
    pub fn screen_x(&self, player_x: i32) -> (r: i32)
        requires
            i32::MIN <= self.x - player_x <= i32::MAX,
        ensures
            r == self.x - player_x,
    {
        self.x - player_x
    }

    /// Rows of the blocks of the wall above the gap, aligned to the block grid
    /// and ending at the gap's top row.
    pub fn upper_wall_rows(&self) -> (r: Vec<i32>)
        requires
            self.wf(),
        ensures
            is_block_rows(r@, upper_start(self.gap_top()), self.gap_top()),
    {
        let upper = self.gap_y - self.size / 2;
        block_rows(-(upper % WALL_SPRITE_HEIGHT), upper)
    }

    /// Rows of the blocks of the wall below the gap, from the gap's bottom row
    /// down to the bottom of the screen.
    pub fn lower_wall_rows(&self) -> (r: Vec<i32>)
        requires
            self.wf(),
        ensures
            is_block_rows(r@, self.gap_bottom(), SCREEN_HEIGHT as int),
    {
        block_rows(self.gap_y + self.size / 2, SCREEN_HEIGHT)
    }
}

} // verus!
