//! The player's avatar: vertical physics and the flap animation phase.
use crate::{PLAYER_SPRITE_HEIGHT, SUBCELLS};
use vstd::prelude::*;

verus! {

/// Terminal falling speed, in tenths of a cell per tick.
pub const MAX_VELOCITY: i32 = 20;

/// Speed gained per tick while below terminal speed, in tenths.
pub const GRAVITY: i32 = 2;

/// Speed set by a flap (upward), in tenths of a cell per tick.
pub const FLAP_VELOCITY: i32 = -20;

/// Animation phase set by a flap, in tenths.
pub const FLAP_CYCLE_START: i32 = 39;

/// The avatar. `y`, `velocity` and `flap_cycle` are in tenths of a cell;
/// `y` grows downward from the top boundary.
#[derive(Clone, Copy, Debug, PartialEq, Eq, Structural)]
pub struct Player {
    pub x: i32,
    pub y: i32,
    pub velocity: i32,
    pub flap_cycle: i32,
}

/// Velocity after one tick: gravity applies only below terminal speed.
pub open spec fn velocity_step(v: int) -> int {
    if v < MAX_VELOCITY {
        v + GRAVITY
    } else {
        v
    }
}

/// Height after one tick at (already updated) velocity `v`, clamped at the top.
pub open spec fn height_step(y: int, v: int) -> int {
    if y + v < 0 {
        0
    } else {
        y + v
    }
}

/// Animation phase after one tick: a three-band decay, floored at zero.
pub open spec fn flap_cycle_step(c: int) -> int {
    let d = if c > 30 {
        c - 4
    } else if c > 20 {
        c - 1
    } else if c > 0 {
        c - 5
    } else {
        c
    };
    if d < 0 {
        0
    } else {
        d
    }
}

/// Velocity after `n` ticks without a flap, starting from `v`.
pub open spec fn velocity_after(v: int, n: nat) -> int
    decreases n,
{
    if n == 0 {
        v
    } else {
        velocity_after(velocity_step(v), (n - 1) as nat)
    }
}

/// Animation phase after `n` ticks without a flap, starting from `c`.
pub open spec fn flap_cycle_after(c: int, n: nat) -> int
    decreases n,
{
    if n == 0 {
        c
    } else {
        flap_cycle_after(flap_cycle_step(c), (n - 1) as nat)
    }
}

impl Player {
    /// Values every reachable player has: on or below the top boundary, a
    /// speed that gravity and flaps can produce, and an animation phase in range.
    pub open spec fn wf(self) -> bool {
        &&& self.y >= 0
        &&& FLAP_VELOCITY <= self.velocity <= MAX_VELOCITY
        &&& self.velocity % 2 == 0
        &&& 0 <= self.flap_cycle <= FLAP_CYCLE_START
    }

    /// The player after one physics tick.
    pub open spec fn stepped(self) -> Player {
        let v = velocity_step(self.velocity as int);
        Player {
            x: (self.x + 1) as i32,
            y: height_step(self.y as int, v) as i32,
            velocity: v as i32,
            flap_cycle: flap_cycle_step(self.flap_cycle as int) as i32,
        }
    }

    /// The player after a flap.
    pub open spec fn flapped(self) -> Player {
        Player { velocity: FLAP_VELOCITY, flap_cycle: FLAP_CYCLE_START, ..self }
    }

    /// A player at rest at column `x` and height `y` (in tenths).
    pub fn new(x: i32, y: i32) -> (r: Player)
        requires
            y >= 0,
        ensures
            r == (Player { x, y, velocity: 0, flap_cycle: 0 }),
            r.wf(),
    {
        Player { x, y, velocity: 0, flap_cycle: 0 }
    }

    /// Advances one physics tick: gravity below terminal speed, move by the
    /// new velocity, one column forward, clamp at the top, decay the phase.
    pub fn gravity_and_move(&mut self)
        requires
            old(self).wf(),
            old(self).x < i32::MAX,
            old(self).y <= i32::MAX - MAX_VELOCITY - GRAVITY,
        ensures
            *final(self) == old(self).stepped(),
            final(self).velocity == velocity_step(old(self).velocity as int),
            final(self).y == height_step(old(self).y as int, final(self).velocity as int),
            final(self).x == old(self).x + 1,
            final(self).flap_cycle == flap_cycle_step(old(self).flap_cycle as int),
            final(self).y >= 0,
            final(self).wf(),
    {
        if self.velocity < MAX_VELOCITY {
            self.velocity = self.velocity + GRAVITY;
        }
        self.y = self.y + self.velocity;
        self.x = self.x + 1;
        if self.y < 0 {
            self.y = 0;
        }
        if self.flap_cycle > 30 {
            self.flap_cycle = self.flap_cycle - 4;
        } else if self.flap_cycle > 20 {
            self.flap_cycle = self.flap_cycle - 1;
        } else if self.flap_cycle > 0 {
            self.flap_cycle = self.flap_cycle - 5;
        }
        if self.flap_cycle < 0 {
            self.flap_cycle = 0;
        }
    }

    /// Flaps: upward speed and a restarted animation, whatever the state.
    pub fn flap(&mut self)
        ensures
            *final(self) == old(self).flapped(),
            final(self).velocity == FLAP_VELOCITY,
            final(self).flap_cycle == FLAP_CYCLE_START,
            final(self).x == old(self).x,
            final(self).y == old(self).y,
            old(self).wf() ==> final(self).wf(),
    {
        self.velocity = FLAP_VELOCITY;
        self.flap_cycle = FLAP_CYCLE_START;
    }

    /// Index of the animation frame to draw: the phase truncated to whole units.
    pub fn sprite_frame(&self) -> (r: usize)
        requires
            self.wf(),
        ensures
            r == self.flap_cycle as int / SUBCELLS as int,
            r <= 3,
    {
        (self.flap_cycle / SUBCELLS) as usize
    }

    /// Screen row of the sprite's top edge: the height truncated to a cell,
    /// less half the sprite height.
    pub fn render_y(&self) -> (r: i32)
        requires
            self.y >= 0,
        ensures
            r == self.y as int / SUBCELLS as int - PLAYER_SPRITE_HEIGHT / 2,
    {
        self.y / SUBCELLS - PLAYER_SPRITE_HEIGHT / 2
    }
}

/// Falling from rest, the speed after `n` ticks is `min(2.0, 0.2 * n)` cells
/// per tick, and it is exactly terminal speed from the tenth tick on.
pub proof fn lemma_velocity_from_rest(n: nat)
    ensures
        velocity_after(0, n) == if 2 * n < MAX_VELOCITY { 2 * n as int } else { MAX_VELOCITY as int },
        n >= 10 ==> velocity_after(0, n) == MAX_VELOCITY,
{
    lemma_velocity_after_even(0, n);
}

proof fn lemma_velocity_after_even(v: int, n: nat)
    requires
        0 <= v <= MAX_VELOCITY,
        v % 2 == 0,
    ensures
        velocity_after(v, n) == if v + 2 * n < MAX_VELOCITY { v + 2 * n } else { MAX_VELOCITY as int },
    decreases n,
{
    if n > 0 {
        lemma_velocity_after_even(velocity_step(v), (n - 1) as nat);
    }
}

/// From any phase in `[0, 3.9]`, the animation phase never goes negative and
/// reaches exactly zero within as many ticks as it has tenths (so within 39
/// ticks), where it then stays.
pub proof fn lemma_flap_cycle_settles(c: int, n: nat)
    requires
        0 <= c <= FLAP_CYCLE_START,
    ensures
        flap_cycle_after(c, n) >= 0,
        flap_cycle_after(c, n) <= if c - n > 0 { c - n } else { 0 },
        n >= c ==> flap_cycle_after(c, n) == 0,
        flap_cycle_step(0) == 0,
    decreases n,
{
    if n > 0 {
        lemma_flap_cycle_settles(flap_cycle_step(c), (n - 1) as nat);
    }
}

} // verus!
