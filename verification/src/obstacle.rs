//! Obstacles: vertical gap barriers, and the collision checks against them.

use vstd::prelude::*;

use crate::draw::{DrawCommand, DrawStep, TermColor};
use crate::player::{clamp_floor, Player};
use crate::rng::GameRng;

verus! {

/// Lowest cell the gap centre may take (inclusive).
pub const GAP_Y_MIN: i32 = 10;

/// Upper bound on the gap centre (exclusive).
pub const GAP_Y_MAX: i32 = 50;

/// Gap height at score zero.
pub const BASE_GAP_SIZE: u32 = 20;

/// The gap never shrinks below this height.
pub const GAP_SIZE_FLOOR: u32 = 2;

/// A vertical barrier with a passable gap.
pub struct Obstacle {
    /// World-space horizontal position of the barrier.
    pub x: i32,
    /// Vertical centre of the passable gap; immutable after creation.
    pub gap_y: i32,
    /// Total gap height; immutable after creation.
    pub size: i32,
}

/// The gap height an obstacle created at the given score receives:
/// the base height shrunk by the score, but never below the floor.
pub open spec fn gap_size_for(score: int) -> int {
    if BASE_GAP_SIZE - score < GAP_SIZE_FLOOR as int {
        GAP_SIZE_FLOOR as int
    } else {
        BASE_GAP_SIZE - score
    }
}

impl Obstacle {
    /// A consistent obstacle: gap centre drawn from the configured range
    /// and gap height between the floor and the base height.
    pub open spec fn wf(self) -> bool {
        &&& GAP_Y_MIN <= self.gap_y < GAP_Y_MAX
        &&& GAP_SIZE_FLOOR <= self.size <= BASE_GAP_SIZE
    }

    /// What holds of an obstacle freshly created at position `x` with the
    /// given score, whatever gap centre was drawn.
    pub open spec fn is_fresh(self, x: int, score: int) -> bool {
        &&& self.x == x
        &&& self.size == gap_size_for(score)
        &&& GAP_Y_MIN <= self.gap_y < GAP_Y_MAX
    }

    /// Creates an obstacle with a caller-chosen gap centre.
    pub fn with_gap(x: i32, score: u32, gap_y: i32) -> (o: Obstacle)
        requires
            GAP_Y_MIN <= gap_y < GAP_Y_MAX,
        ensures
            o == (Obstacle { x, gap_y, size: gap_size_for(score as int) as i32 }),
            o.is_fresh(x as int, score as int),
            o.wf(),
    {
        let size_shrunk: u32 = if score >= BASE_GAP_SIZE - GAP_SIZE_FLOOR {
            GAP_SIZE_FLOOR
        } else {
            BASE_GAP_SIZE - score
        };
        Obstacle { x, gap_y, size: size_shrunk as i32 }
    }

    /// Creates an obstacle at position `x`, drawing the gap centre from the
    /// injected random source and sizing the gap from the current score.
    pub fn new(x: i32, score: u32, rng: &mut GameRng) -> (o: Obstacle)
        ensures
            o.is_fresh(x as int, score as int),
            o.wf(),
    {
        let gap_y = rng.range(GAP_Y_MIN, GAP_Y_MAX);
        Obstacle::with_gap(x, score, gap_y)
    }

    /// Whether the player collides with this obstacle: the two share a
    /// column and the player sits outside the gap.  The half height is the
    /// truncated half of the gap height.
    pub open spec fn hits(self, p: Player) -> bool {
        let half = self.size / 2;
        &&& p.x == self.x
        &&& (p.y < self.gap_y - half || p.y > self.gap_y + half)
    }

    /// Collision check; pure and side-effect-free.
    pub fn hit_obstacle(&self, player: &Player) -> (r: bool)
        requires
            self.wf(),
        ensures
            r == self.hits(*player),
    {
        let half_size = self.size / 2;
        let does_x_match = player.x == self.x;
        let player_above_gap = player.y < self.gap_y - half_size;
        let player_below_gap = player.y > self.gap_y + half_size;
        does_x_match && (player_above_gap || player_below_gap)
    }

    /// The draw instructions for this obstacle: one column of pillar glyphs
    /// from the screen top down to the gap, and one from the gap down to
    /// the screen bottom, at screen column `x - player_x`.
    pub open spec fn cells_spec(self, player_x: int, height: int) -> Seq<DrawStep> {
        let sx = self.x - player_x;
        let half = self.size / 2;
        let top = self.gap_y - half;
        let bot = self.gap_y + half;
        Seq::new(clamp_floor(top) as nat, |i: int| pillar_cell(sx, i)) + Seq::new(
            clamp_floor(height - bot) as nat,
            |i: int| pillar_cell(sx, bot + i),
        )
    }

    /// Renders the obstacle relative to the player's world position.
    pub fn render(&self, player_x: i32, screen_height: i32) -> (cmds: Vec<DrawCommand>)
        requires
            self.wf(),
            i32::MIN <= self.x - player_x <= i32::MAX,
        ensures
            crate::draw::draws_of(cmds@) == self.cells_spec(player_x as int, screen_height as int),
    {
        let ghost goal = self.cells_spec(player_x as int, screen_height as int);
        let mut cmds: Vec<DrawCommand> = Vec::new();
        let screen_x = self.x - player_x;
        let half_size = self.size / 2;
        let top = self.gap_y - half_size;
        let bot = self.gap_y + half_size;

        let mut y: i32 = 0;
        while y < top
            invariant
                self.wf(),
                screen_x == self.x - player_x,
                half_size == self.size / 2,
                top == self.gap_y - half_size,
                0 <= y <= top,
                cmds@.len() == y,
                forall|i: int|
                    0 <= i < y ==> cmds@[i]@ == pillar_cell(screen_x as int, i),
            decreases top - y,
        {
            cmds.push(DrawCommand::SetCell {
                x: screen_x,
                y,
                glyph: '|',
                fg: TermColor::Red,
                bg: TermColor::Black,
            });
            y = y + 1;
        }

        let mut y2: i32 = bot;
        while y2 < screen_height
            invariant
                self.wf(),
                screen_x == self.x - player_x,
                half_size == self.size / 2,
                top == self.gap_y - half_size,
                bot == self.gap_y + half_size,
                bot <= y2,
                y2 <= screen_height || y2 == bot,
                cmds@.len() == top + (y2 - bot),
                forall|i: int|
                    0 <= i < top ==> cmds@[i]@ == pillar_cell(screen_x as int, i),
                forall|i: int|
                    top <= i < cmds@.len() ==> cmds@[i]@ == pillar_cell(
                        screen_x as int,
                        bot + (i - top),
                    ),
            decreases screen_height - y2,
        {
            cmds.push(DrawCommand::SetCell {
                x: screen_x,
                y: y2,
                glyph: '|',
                fg: TermColor::Red,
                bg: TermColor::Black,
            });
            y2 = y2 + 1;
        }

        proof {
            assert(crate::draw::draws_of(cmds@) =~= goal);
        }
        cmds
    }
}

/// One pillar glyph of an obstacle column.
pub open spec fn pillar_cell(sx: int, y: int) -> DrawStep {
    DrawStep::Cell { x: sx, y, glyph: '|', fg: TermColor::Red, bg: TermColor::Black }
}

/// Whether the player has fallen past the bottom of the screen.
pub open spec fn out_of_bounds_spec(p: Player, screen_height: int) -> bool {
    p.y > screen_height
}

/// Out-of-bounds check; pure and side-effect-free.
pub fn out_of_bounds(player: &Player, screen_height: i32) -> (r: bool)
    ensures
        r == out_of_bounds_spec(*player, screen_height as int),
{
    player.y > screen_height
}

} // verus!
