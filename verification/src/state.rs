//! The game mode controller: a three-state machine (menu, playing, end)
//! that owns the player, the current obstacle, the score and the frame
//! accumulator, and advances once per host frame.

use vstd::prelude::*;

use crate::draw::{
    center_of, centered_x, dec_digits, draws_of, u32_to_decimal, DrawCommand, DrawStep,
};
use crate::frame::{tick_fires, FrameAccumulator};
use crate::obstacle::{out_of_bounds, out_of_bounds_spec, Obstacle};
use crate::player::{Player, PLAYER_START_X, PLAYER_START_Y};
use crate::rng::GameRng;

verus! {

use vstd::string::StrSliceExecFns;
use vstd::string::StringExecFns;

/// The phase the session is in.
#[derive(Clone, Copy, PartialEq, Eq, Structural, Debug)]
pub enum GameMode {
    /// Waiting on the start menu.
    Menu,
    /// The simulation is running.
    Playing,
    /// The player died; the final state is shown until a restart.
    End,
}

/// The one input event sampled by the host for this frame.  An unknown key
/// is reported as `Idle` and ignored in every state.
#[derive(Clone, Copy, PartialEq, Eq, Structural, Debug)]
pub enum InputEvent {
    /// No relevant key this frame.
    Idle,
    /// Flap upward (space).
    Flap,
    /// Start or restart a game (P).
    Start,
    /// Ask the host to quit (Q).
    Quit,
}

/// What one call of [`State::advance`] hands back to the host.
pub struct FrameOutput {
    /// The draw instructions for this frame, in order.
    pub commands: Vec<DrawCommand>,
    /// Whether the player asked to quit; the host ends its loop on it.
    pub quit: bool,
}

/// The whole session state.
pub struct State {
    /// Screen width in cells; fixed at construction.
    pub width: i32,
    /// Screen height in cells; fixed at construction.
    pub height: i32,
    /// The player body.
    pub player: Player,
    /// Unconsumed wall-clock time.
    pub frame_time: FrameAccumulator,
    /// Current phase.
    pub mode: GameMode,
    /// The one live obstacle.
    pub obstacle: Obstacle,
    /// Obstacles passed this session.
    pub score: u32,
    /// The injected random source for obstacle gaps.
    pub rng: GameRng,
}

/// The player a fresh session starts with.
pub open spec fn initial_player() -> Player {
    Player { x: PLAYER_START_X, y: PLAYER_START_Y, velocity: 0 }
}

impl State {
    /// Session consistency: positive screen, consistent parts, and the
    /// obstacle within one screen ahead of (or just behind) the player.
    pub open spec fn wf(self) -> bool {
        &&& 1 <= self.width
        &&& 1 <= self.height
        &&& self.player.wf()
        &&& self.obstacle.wf()
        &&& self.frame_time.wf()
        &&& self.obstacle.x <= self.player.x + self.width
        &&& self.player.x <= self.obstacle.x + PLAYER_START_X
    }

    /// Machine-limit headroom for one more call: the coordinates and the
    /// score stay representable.
    pub open spec fn has_headroom(self) -> bool {
        &&& self.player.x + 1 + self.width <= i32::MAX
        &&& self.player.y + 2 <= i32::MAX
        &&& self.score < u32::MAX
    }

    /// Runtime check of [`State::has_headroom`], for hosts.
    pub fn can_advance(&self) -> (r: bool)
        ensures
            r == self.has_headroom(),
    {
        self.player.x as i64 + 1 + self.width as i64 <= i32::MAX as i64
            && self.player.y as i64 + 2 <= i32::MAX as i64 && self.score < u32::MAX
    }

    /// What every restart (menu to playing, or end to playing) establishes,
    /// irrespective of prior session history: score zero, the initial
    /// player, an empty accumulator, and a fresh obstacle at the right
    /// screen edge sized for score zero.
    pub open spec fn is_reset(pre: State, post: State) -> bool {
        &&& post.width == pre.width
        &&& post.height == pre.height
        &&& post.mode == GameMode::Playing
        &&& post.score == 0
        &&& post.player == initial_player()
        &&& post.frame_time.accumulated_ms == 0
        &&& post.obstacle.is_fresh(pre.width as int, 0)
    }

    /// The transition the menu and end screens share: start resets the
    /// session, quit raises the quit flag, anything else is a no-op.
    pub open spec fn menu_like_transition(
        pre: State,
        input: InputEvent,
        post: State,
        quit: bool,
    ) -> bool {
        match input {
            InputEvent::Start => State::is_reset(pre, post) && !quit,
            InputEvent::Quit => post == pre && quit,
            _ => post == pre && !quit,
        }
    }

    /// The player after the physics of one playing call: one gravity tick
    /// if the accumulator fires, then a flap if one was input (the flap
    /// applies whether or not a tick fired).
    pub open spec fn playing_player(pre: State, input: InputEvent, elapsed: int) -> Player {
        let ticked = tick_fires(pre.frame_time.accumulated_ms as int, elapsed);
        let p1 = if ticked {
            pre.player.gravity_step()
        } else {
            pre.player
        };
        if input == InputEvent::Flap {
            p1.flap_step()
        } else {
            p1
        }
    }

    /// One playing-mode step, in the fixed order: physics tick, flap,
    /// pass-through scoring with obstacle respawn, then the death check
    /// (collision or out of bounds) against the current obstacle.  A pass
    /// and a death can both happen in one call.
    pub open spec fn playing_transition(
        pre: State,
        input: InputEvent,
        elapsed: int,
        post: State,
    ) -> bool {
        let ticked = tick_fires(pre.frame_time.accumulated_ms as int, elapsed);
        let p2 = State::playing_player(pre, input, elapsed);
        let passed = p2.x > pre.obstacle.x;
        let score2 = if passed {
            pre.score + 1
        } else {
            pre.score as int
        };
        &&& post.width == pre.width
        &&& post.height == pre.height
        &&& post.frame_time.accumulated_ms == (if ticked {
            0int
        } else {
            pre.frame_time.accumulated_ms + elapsed
        })
        &&& post.player == p2
        &&& post.score == score2
        &&& (if passed {
            post.obstacle.is_fresh(p2.x + pre.width, score2)
        } else {
            post.obstacle == pre.obstacle
        })
        &&& post.mode == (if out_of_bounds_spec(p2, pre.height as int) || post.obstacle.hits(p2) {
            GameMode::End
        } else {
            GameMode::Playing
        })
    }

    /// The draw instructions of a menu frame.
    pub open spec fn menu_draws(width: int) -> Seq<DrawStep> {
        seq![
            (DrawStep::Text {
                x: center_of(width, "welcome here"@.len() as int),
                y: 5,
                text: "welcome here"@,
            }),
            (DrawStep::Text { x: center_of(width, "(P) Play"@.len() as int), y: 8, text: "(P) Play"@ }),
            (DrawStep::Text { x: center_of(width, "(Q) Quit"@.len() as int), y: 9, text: "(Q) Quit"@ }),
        ]
    }

    /// The text of the end screen's score line.
    pub open spec fn earned_text(score: u32) -> Seq<char> {
        "you earned "@ + dec_digits(score as nat) + " point"@
    }

    /// The draw instructions of an end-screen frame.
    pub open spec fn dead_draws(width: int, score: u32) -> Seq<DrawStep> {
        seq![
            (DrawStep::Text {
                x: center_of(width, "You are dead"@.len() as int),
                y: 5,
                text: "You are dead"@,
            }),
            (DrawStep::Text {
                x: center_of(width, State::earned_text(score).len() as int),
                y: 6,
                text: State::earned_text(score),
            }),
            (DrawStep::Text { x: center_of(width, "(P) Play"@.len() as int), y: 8, text: "(P) Play"@ }),
            (DrawStep::Text { x: center_of(width, "(Q) Quit"@.len() as int), y: 9, text: "(Q) Quit"@ }),
        ]
    }

    /// The draw instructions of a playing frame: the player glyph, the two
    /// overlay texts with the score as it was when the frame began, and the
    /// obstacle as it stood before any respawn this call.
    pub open spec fn playing_draws(pre: State, input: InputEvent, elapsed: int) -> Seq<DrawStep> {
        let p2 = State::playing_player(pre, input, elapsed);
        seq![
            (DrawStep::Cell {
                x: 0,
                y: p2.y as int,
                glyph: '@',
                fg: crate::draw::TermColor::Yellow,
                bg: crate::draw::TermColor::Black,
            }),
            (DrawStep::Text { x: 0, y: 0, text: "Press space to flap"@ }),
            (DrawStep::Text { x: 0, y: 1, text: "Score "@ + dec_digits(pre.score as nat) }),
        ] + pre.obstacle.cells_spec(p2.x as int, pre.height as int)
    }

    /// Restart is history-free: any two restarts on the same screen width
    /// yield the same player, score, mode and accumulator, and obstacles
    /// at the same position with the same gap height; only the randomly
    /// drawn gap centre may differ.
    pub proof fn lemma_restart_uniform(pre1: State, post1: State, pre2: State, post2: State)
        requires
            State::is_reset(pre1, post1),
            State::is_reset(pre2, post2),
            pre1.width == pre2.width,
        ensures
            post1.player == post2.player,
            post1.score == post2.score,
            post1.mode == post2.mode,
            post1.frame_time.accumulated_ms == post2.frame_time.accumulated_ms,
            post1.obstacle.x == post2.obstacle.x,
            post1.obstacle.size == post2.obstacle.size,
    {
    }

    /// Creates a session on the menu screen with the given geometry and
    /// random source.
    pub fn new(width: i32, height: i32, rng: GameRng) -> (s: State)
        requires
            1 <= width,
            1 <= height,
        ensures
            s.wf(),
            s.width == width,
            s.height == height,
            s.mode == GameMode::Menu,
            s.score == 0,
            s.player == initial_player(),
            s.frame_time.accumulated_ms == 0,
            s.obstacle.is_fresh(width as int, 0),
    {
        let mut rng = rng;
        let obstacle = Obstacle::new(width, 0, &mut rng);
        State {
            width,
            height,
            player: Player::new(PLAYER_START_X, PLAYER_START_Y),
            frame_time: FrameAccumulator::new(),
            mode: GameMode::Menu,
            obstacle,
            score: 0,
            rng,
        }
    }

    /// Resets the session and switches to playing, whatever came before.
    pub fn restart(&mut self)
        requires
            old(self).wf(),
        ensures
            final(self).wf(),
            State::is_reset(*old(self), *final(self)),
    {
        self.mode = GameMode::Playing;
        self.frame_time = FrameAccumulator::new();
        self.player = Player::new(PLAYER_START_X, PLAYER_START_Y);
        self.obstacle = Obstacle::new(self.width, 0, &mut self.rng);
        self.score = 0;
    }

    /// The menu screen: draws the welcome texts and handles start and quit.
    pub fn main_menu(&mut self, input: InputEvent) -> (out: FrameOutput)
        requires
            old(self).wf(),
        ensures
            final(self).wf(),
            State::menu_like_transition(*old(self), input, *final(self), out.quit),
            draws_of(out.commands@) == State::menu_draws(old(self).width as int),
    {
        proof {
            reveal_strlit("welcome here");
            reveal_strlit("(P) Play");
            reveal_strlit("(Q) Quit");
        }
        let mut commands: Vec<DrawCommand> = Vec::new();
        let welcome = "welcome here";
        commands.push(DrawCommand::DrawText {
            x: centered_x(self.width, welcome.unicode_len()),
            y: 5,
            text: welcome.to_owned(),
        });
        let play = "(P) Play";
        commands.push(DrawCommand::DrawText {
            x: centered_x(self.width, play.unicode_len()),
            y: 8,
            text: play.to_owned(),
        });
        let quit_text = "(Q) Quit";
        commands.push(DrawCommand::DrawText {
            x: centered_x(self.width, quit_text.unicode_len()),
            y: 9,
            text: quit_text.to_owned(),
        });
        proof {
            assert(draws_of(commands@) =~= State::menu_draws(old(self).width as int));
        }
        let quit = match input {
            InputEvent::Start => {
                self.restart();
                false
            },
            InputEvent::Quit => true,
            _ => false,
        };
        FrameOutput { commands, quit }
    }

    /// The end screen: draws the death texts with the final score and
    /// handles restart and quit.
    pub fn dead(&mut self, input: InputEvent) -> (out: FrameOutput)
        requires
            old(self).wf(),
        ensures
            final(self).wf(),
            State::menu_like_transition(*old(self), input, *final(self), out.quit),
            draws_of(out.commands@) == State::dead_draws(old(self).width as int, old(self).score),
    {
        proof {
            reveal_strlit("You are dead");
            reveal_strlit("you earned ");
            reveal_strlit(" point");
            reveal_strlit("(P) Play");
            reveal_strlit("(Q) Quit");
            crate::draw::lemma_dec_digits_len_u32(self.score);
        }
        let mut commands: Vec<DrawCommand> = Vec::new();
        let dead_text = "You are dead";
        commands.push(DrawCommand::DrawText {
            x: centered_x(self.width, dead_text.unicode_len()),
            y: 5,
            text: dead_text.to_owned(),
        });
        let earned = "you earned ".to_owned().concat(u32_to_decimal(self.score).as_str()).concat(
            " point",
        );
        commands.push(DrawCommand::DrawText {
            x: centered_x(self.width, earned.as_str().unicode_len()),
            y: 6,
            text: earned,
        });
        let play = "(P) Play";
        commands.push(DrawCommand::DrawText {
            x: centered_x(self.width, play.unicode_len()),
            y: 8,
            text: play.to_owned(),
        });
        let quit_text = "(Q) Quit";
        commands.push(DrawCommand::DrawText {
            x: centered_x(self.width, quit_text.unicode_len()),
            y: 9,
            text: quit_text.to_owned(),
        });
        proof {
            assert(draws_of(commands@) =~= State::dead_draws(
                old(self).width as int,
                old(self).score,
            ));
        }
        let quit = match input {
            InputEvent::Start => {
                self.restart();
                false
            },
            InputEvent::Quit => true,
            _ => false,
        };
        FrameOutput { commands, quit }
    }

    /// One playing-mode call: physics, input, rendering, scoring, death.
    pub fn play(&mut self, input: InputEvent, elapsed_ms: u32) -> (out: FrameOutput)
        requires
            old(self).wf(),
            old(self).has_headroom(),
            old(self).mode == GameMode::Playing,
        ensures
            final(self).wf(),
            State::playing_transition(*old(self), input, elapsed_ms as int, *final(self)),
            draws_of(out.commands@) == State::playing_draws(*old(self), input, elapsed_ms as int),
            !out.quit,
    {
        proof {
            reveal_strlit("Press space to flap");
            reveal_strlit("Score ");
        }
        let ticked = self.frame_time.accumulate(elapsed_ms);
        if ticked {
            self.player.gravity_and_move();
        }
        if input == InputEvent::Flap {
            self.player.flap();
        }

        let mut commands: Vec<DrawCommand> = Vec::new();
        commands.push(self.player.render());
        commands.push(DrawCommand::DrawText {
            x: 0,
            y: 0,
            text: "Press space to flap".to_owned(),
        });
        let score_text = "Score ".to_owned().concat(u32_to_decimal(self.score).as_str());
        commands.push(DrawCommand::DrawText { x: 0, y: 1, text: score_text });
        let mut pillar_cmds = self.obstacle.render(self.player.x, self.height);
        commands.append(&mut pillar_cmds);
        proof {
            assert(draws_of(commands@) =~= State::playing_draws(
                *old(self),
                input,
                elapsed_ms as int,
            ));
        }

        if self.player.x > self.obstacle.x {
            self.score = self.score + 1;
            self.obstacle = Obstacle::new(self.player.x + self.width, self.score, &mut self.rng);
        }

        if self.player.y > self.height || self.obstacle.hit_obstacle(&self.player) {
            self.mode = GameMode::End;
        }

        FrameOutput { commands, quit: false }
    }

    /// The single entry point the host calls once per frame: dispatches on
    /// the current mode and returns this frame's draw instructions and the
    /// quit flag.
    pub fn advance(&mut self, input: InputEvent, elapsed_ms: u32) -> (out: FrameOutput)
        requires
            old(self).wf(),
            old(self).has_headroom(),
        ensures
            final(self).wf(),
            match old(self).mode {
                GameMode::Menu => State::menu_like_transition(
                    *old(self),
                    input,
                    *final(self),
                    out.quit,
                ) && draws_of(out.commands@) == State::menu_draws(old(self).width as int),
                GameMode::End => State::menu_like_transition(*old(self), input, *final(self), out.quit)
                    && draws_of(out.commands@) == State::dead_draws(
                    old(self).width as int,
                    old(self).score,
                ),
                GameMode::Playing => State::playing_transition(
                    *old(self),
                    input,
                    elapsed_ms as int,
                    *final(self),
                ) && draws_of(out.commands@) == State::playing_draws(
                    *old(self),
                    input,
                    elapsed_ms as int,
                ) && !out.quit,
            },
    {
        match self.mode {
            GameMode::Menu => self.main_menu(input),
            GameMode::End => self.dead(input),
            GameMode::Playing => self.play(input, elapsed_ms),
        }
    }
}

} // verus!
