//! The player body: position plus vertical velocity.
//!
//! Velocity is held in tenths of a cell per tick, so that the physics
//! constants (gravity increment 0.2, terminal fall speed 2.0, flap impulse
//! -2.0) are exact integers: 2, 20 and -20 tenths.  Position stays in whole
//! cells; a tick moves the body by the truncated whole-cell part of the
//! velocity, exactly as a truncating float-to-integer cast would.

use vstd::prelude::*;

use crate::draw::{DrawCommand, DrawStep, TermColor};

verus! {

/// Gravity adds this many tenths of a cell per tick to the velocity.
pub const GRAVITY_TENTHS: i32 = 2;

/// Terminal fall speed, in tenths of a cell per tick.
pub const MAX_FALL_TENTHS: i32 = 20;

/// A flap overwrites the velocity with this value (upward).
pub const FLAP_TENTHS: i32 = -20;

/// Horizontal start position of a fresh player.
pub const PLAYER_START_X: i32 = 5;

/// Vertical start position of a fresh player.
pub const PLAYER_START_Y: i32 = 25;

/// The player-controlled body.
pub struct Player {
    /// World-space horizontal progress; advances by one cell per tick.
    pub x: i32,
    /// Vertical position; zero is the top of the screen, clamped to `>= 0`.
    pub y: i32,
    /// Vertical speed in tenths of a cell per tick; positive is downward.
    pub velocity: i32,
}

/// Whole cells moved in one tick at the given velocity (truncation toward
/// zero, as a float-to-integer cast would do).
pub open spec fn velocity_cells(v: int) -> int {
    if v >= 0 {
        v / 10
    } else {
        -((-v) / 10)
    }
}

/// Velocity after one tick of gravity: grows by the gravity increment until
/// it reaches the terminal fall speed.
pub open spec fn next_velocity(v: int) -> int {
    if v < MAX_FALL_TENTHS as int {
        v + GRAVITY_TENTHS as int
    } else {
        v
    }
}

/// Clamps a vertical position to the top of the screen.
pub open spec fn clamp_floor(y: int) -> int {
    if y < 0 {
        0
    } else {
        y
    }
}

impl Player {
    /// A consistent body: never above the screen top, velocity within the
    /// range reachable from a start or a flap, and an even count of tenths
    /// (every reachable velocity is a multiple of the gravity increment).
    pub open spec fn wf(self) -> bool {
        &&& self.y >= 0
        &&& FLAP_TENTHS as int <= self.velocity as int <= MAX_FALL_TENTHS as int
        &&& self.velocity as int % 2 == 0
    }

    /// The body after one gravity-and-move tick.
    pub open spec fn gravity_step(self) -> Player {
        let v = next_velocity(self.velocity as int);
        Player {
            x: (self.x + 1) as i32,
            y: clamp_floor(self.y + velocity_cells(v)) as i32,
            velocity: v as i32,
        }
    }

    /// The body right after a flap.
    pub open spec fn flap_step(self) -> Player {
        Player { velocity: FLAP_TENTHS, ..self }
    }

    /// Creates a body at the given cell with zero vertical speed.
    pub fn new(x: i32, y: i32) -> (p: Player)
        requires
            y >= 0,
        ensures
            p == (Player { x, y, velocity: 0 }),
            p.wf(),
    {
        Player { x, y, velocity: 0 }
    }

    /// One physics tick: accelerate downward up to the terminal speed,
    /// move by the whole-cell part of the velocity, advance one cell
    /// forward, and clamp at the screen top.
    pub fn gravity_and_move(&mut self)
        requires
            old(self).wf(),
            old(self).x < i32::MAX,
            old(self).y + 2 <= i32::MAX,
        ensures
            *final(self) == old(self).gravity_step(),
            final(self).wf(),
            final(self).velocity <= MAX_FALL_TENTHS,
            final(self).y >= 0,
    {
        if self.velocity < MAX_FALL_TENTHS {
            self.velocity = self.velocity + GRAVITY_TENTHS;
        }
        let cells: i32 = if self.velocity >= 0 {
            self.velocity / 10
        } else {
            -((-self.velocity) / 10)
        };
        self.y = self.y + cells;
        self.x = self.x + 1;
        if self.y < 0 {
            self.y = 0;
        }
    }

    /// A flap overwrites the velocity with the fixed upward impulse; it is
    /// not additive, so flapping while already rising has no greater effect.
    pub fn flap(&mut self)
        ensures
            *final(self) == old(self).flap_step(),
            final(self).velocity == FLAP_TENTHS,
            final(self).x == old(self).x,
            final(self).y == old(self).y,
            old(self).wf() ==> final(self).wf(),
    {
        self.velocity = FLAP_TENTHS;
    }

    /// The draw instruction for the player glyph, always at screen column 0.
    pub fn render(&self) -> (c: DrawCommand)
        ensures
            c@ == (DrawStep::Cell {
                x: 0,
                y: self.y as int,
                glyph: '@',
                fg: TermColor::Yellow,
                bg: TermColor::Black,
            }),
    {
        DrawCommand::SetCell { x: 0, y: self.y, glyph: '@', fg: TermColor::Yellow, bg: TermColor::Black }
    }
}

/// The body after `n` gravity ticks with no flap in between.
pub open spec fn ticks(p: Player, n: nat) -> Player
    decreases n,
{
    if n == 0 {
        p
    } else {
        ticks(p, (n - 1) as nat).gravity_step()
    }
}

/// Velocity bound: over any sequence of ticks without an intervening flap,
/// a consistent body stays consistent and its velocity never exceeds the
/// terminal fall speed.
pub proof fn lemma_velocity_bound(p: Player, n: nat)
    requires
        p.wf(),
        p.y + 2 * n <= i32::MAX,
    ensures
        ticks(p, n).wf(),
        ticks(p, n).velocity <= MAX_FALL_TENTHS,
        ticks(p, n).y <= p.y + 2 * n,
    decreases n,
{
    if n > 0 {
        lemma_velocity_bound(p, (n - 1) as nat);
    }
}

} // verus!
