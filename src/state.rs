//! The game: its modes, the per-frame step of each and the transitions.
use crate::obstacle::{gap_size_for, Obstacle, GAP_Y_MAX, GAP_Y_MIN, START_GAP_SIZE};
use crate::player::Player;
use crate::rng::new_rng;
use crate::{FRAME_DURATION_US, SCREEN_HEIGHT, SCREEN_WIDTH, SUBCELLS};
use bracket_lib::prelude::RandomNumberGenerator;
use vstd::prelude::*;

verus! {

/// Column where a new game places the player.
pub const START_X: i32 = 5;

/// Height (in tenths) where a new game places the player.
pub const START_Y: i32 = 250;

/// Which per-frame handler runs.
#[derive(Clone, Copy, Debug, PartialEq, Eq, Structural)]
pub enum GameMode {
    Menu,
    Playing,
    End,
}

/// A key pressed during a frame.
#[derive(Clone, Copy, Debug, PartialEq, Eq, Structural)]
pub enum Key {
    /// Flap (Space).
    Flap,
    /// Play, or play again (P).
    Play,
    /// Quit (Q).
    Quit,
    /// Any other key.
    Other,
}

/// Whether a frame of `elapsed` microseconds pushes the time debt
/// `frame_time` past one physics tick.
pub open spec fn tick_due(frame_time: int, elapsed: int) -> bool {
    frame_time + elapsed > FRAME_DURATION_US
}

/// The player after one playing frame: one physics tick if one is due, then
/// a flap if the flap key was pressed.
pub open spec fn frame_player(p: Player, frame_time: int, elapsed: int, key: Option<Key>) -> Player {
    let moved = if tick_due(frame_time, elapsed) {
        p.stepped()
    } else {
        p
    };
    if key == Some(Key::Flap) {
        moved.flapped()
    } else {
        moved
    }
}

/// Whether the player has fallen below the bottom of the screen.
pub open spec fn fell_off(p: Player) -> bool {
    p.y as int / SUBCELLS as int > SCREEN_HEIGHT
}

/// The moves between modes that a frame may make; `quitting` is the request
/// to end the program, which only the menu and the end screen can make, and
/// then without changing mode.
pub open spec fn mode_transition_allowed(from: GameMode, to: GameMode, quitting: bool) -> bool {
    match from {
        GameMode::Menu => to == GameMode::Menu || (to == GameMode::Playing && !quitting),
        GameMode::Playing => !quitting && (to == GameMode::Playing || to == GameMode::End),
        GameMode::End => to == GameMode::End || (to == GameMode::Playing && !quitting),
    }
}

/// The whole game: the player, the current wall, the score, the time debt
/// toward the next physics tick (in microseconds), the mode, and the random
/// source of wall gaps.
pub struct State {
    pub player: Player,
    pub frame_time: u64,
    pub obstacle: Obstacle,
    pub mode: GameMode,
    pub score: i32,
    pub rng: RandomNumberGenerator,
}

impl State {
    /// What holds between frames: well-formed parts, less than a tick of time
    /// debt, a score no larger than the distance run, the wall not yet passed,
    /// and a player on screen while playing.
    pub open spec fn wf(&self) -> bool {
        &&& self.player.wf()
        &&& self.obstacle.wf()
        &&& self.frame_time <= FRAME_DURATION_US
        &&& 0 <= self.score <= self.player.x
        &&& self.player.x <= self.obstacle.x
        &&& self.mode == GameMode::Playing ==> !fell_off(self.player)
    }

    /// A game as it starts: player at rest at its start, no time debt, no
    /// score, and a full-height gap one screen ahead.
    pub open spec fn fresh(&self) -> bool {
        &&& self.player == (Player { x: START_X, y: START_Y, velocity: 0, flap_cycle: 0 })
        &&& self.frame_time == 0
        &&& self.score == 0
        &&& self.obstacle.x == SCREEN_WIDTH
        &&& self.obstacle.size == START_GAP_SIZE
        &&& GAP_Y_MIN <= self.obstacle.gap_y < GAP_Y_MAX
    }

    /// One playing frame from `self` to `next` with `elapsed` microseconds and
    /// `key`: time debt and physics tick, flap, passing the wall (one more
    /// point and a new wall one screen ahead of the player, sized for the new
    /// score), and death by falling off or hitting the wall.
    pub open spec fn played(&self, next: &State, elapsed: u32, key: Option<Key>) -> bool {
        let due = tick_due(self.frame_time as int, elapsed as int);
        let p = frame_player(self.player, self.frame_time as int, elapsed as int, key);
        &&& next.frame_time == if due {
            0
        } else {
            self.frame_time + elapsed
        }
        &&& next.player == p
        &&& if p.x > self.obstacle.x {
            &&& next.score == self.score + 1
            &&& next.obstacle.x == p.x + SCREEN_WIDTH
            &&& next.obstacle.size == gap_size_for(next.score as int)
            &&& GAP_Y_MIN <= next.obstacle.gap_y < GAP_Y_MAX
        } else {
            &&& next.score == self.score
            &&& next.obstacle == self.obstacle
        }
        &&& next.mode == if fell_off(p) || next.obstacle.collides(p) {
            GameMode::End
        } else {
            GameMode::Playing
        }
    }

    /// One frame of the menu or the end screen: play starts a fresh game,
    /// quit asks to end the program, anything else changes nothing.
    pub open spec fn answered(&self, next: &State, key: Option<Key>, quitting: bool) -> bool {
        if key == Some(Key::Play) {
            &&& next.fresh()
            &&& next.mode == GameMode::Playing
            &&& !quitting
        } else {
            &&& *next == *self
            &&& quitting == (key == Some(Key::Quit))
        }
    }

    /// A game in the menu, drawing wall gaps from `rng`.
    pub fn with_rng(rng: RandomNumberGenerator) -> (r: State)
        ensures
            r.fresh(),
            r.mode == GameMode::Menu,
            r.wf(),
    {
        let mut rng = rng;
        let obstacle = Obstacle::new(SCREEN_WIDTH, 0, &mut rng);
        State {
            player: Player::new(START_X, START_Y),
            frame_time: 0,
            obstacle,
            mode: GameMode::Menu,
            score: 0,
            rng,
        }
    }

    /// A game in the menu, drawing wall gaps from a system-seeded generator.
    pub fn new() -> (r: State)
        ensures
            r.fresh(),
            r.mode == GameMode::Menu,
            r.wf(),
    {
        State::with_rng(new_rng())
    }

    /// Starts a fresh game in play, whatever the mode.
    pub fn restart(&mut self)
        ensures
            final(self).fresh(),
            final(self).mode == GameMode::Playing,
            final(self).wf(),
    {
        self.player = Player::new(START_X, START_Y);
        self.frame_time = 0;
        self.obstacle = Obstacle::new(SCREEN_WIDTH, 0, &mut self.rng);
        self.score = 0;
        self.mode = GameMode::Playing;
    }

    /// One frame of play with `elapsed` microseconds since the last frame and
    /// the key pressed, if any.
    pub fn play(&mut self, elapsed: u32, key: Option<Key>)
        requires
            old(self).wf(),
            old(self).mode == GameMode::Playing,
            old(self).player.x < i32::MAX - SCREEN_WIDTH,
        ensures
            old(self).played(&*final(self), elapsed, key),
            final(self).wf(),
    {
        self.frame_time = self.frame_time + elapsed as u64;
        if self.frame_time > FRAME_DURATION_US {
            self.frame_time = 0;
            self.player.gravity_and_move();
        }
        if let Some(Key::Flap) = key {
            self.player.flap();
        }
        if self.player.x > self.obstacle.x {
            self.score = self.score + 1;
            self.obstacle = Obstacle::new(self.player.x + SCREEN_WIDTH, self.score, &mut self.rng);
        }
        if self.player.y / SUBCELLS > SCREEN_HEIGHT || self.obstacle.hit_obstacle(&self.player) {
            self.mode = GameMode::End;
        }
    }

    /// One frame of the menu; returns whether the program should end.
    pub fn main_menu(&mut self, key: Option<Key>) -> (quitting: bool)
        requires
            old(self).wf(),
        ensures
            old(self).answered(&*final(self), key, quitting),
            final(self).wf(),
    {
        match key {
            Some(Key::Play) => {
                self.restart();
                false
            },
            Some(Key::Quit) => true,
            _ => false,
        }
    }

    /// One frame of the end screen; returns whether the program should end.
    pub fn dead(&mut self, key: Option<Key>) -> (quitting: bool)
        requires
            old(self).wf(),
        ensures
            old(self).answered(&*final(self), key, quitting),
            final(self).wf(),
    {
        match key {
            Some(Key::Play) => {
                self.restart();
                false
            },
            Some(Key::Quit) => true,
            _ => false,
        }
    }

    /// One frame in whatever mode the game is in; returns whether the program
    /// should end.
    pub fn tick(&mut self, elapsed: u32, key: Option<Key>) -> (quitting: bool)
        requires
            old(self).wf(),
            old(self).player.x < i32::MAX - SCREEN_WIDTH,
        ensures
            final(self).wf(),
            mode_transition_allowed(old(self).mode, final(self).mode, quitting),
            old(self).mode == GameMode::Playing ==> !quitting && old(self).played(
                &*final(self),
                elapsed,
                key,
            ),
            old(self).mode != GameMode::Playing ==> old(self).answered(&*final(self), key, quitting),
    {
        match self.mode {
            GameMode::Menu => self.main_menu(key),
            GameMode::End => self.dead(key),
            GameMode::Playing => {
                self.play(elapsed, key);
                false
            },
        }
    }
}

} // verus!
