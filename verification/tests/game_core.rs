use flappy::frame::FrameAccumulator;
use flappy::obstacle::{out_of_bounds, Obstacle};
use flappy::player::Player;
use flappy::rng::GameRng;
use flappy::state::{GameMode, InputEvent, State};

#[test]
fn gap_size_shrinks_to_floor() {
    assert_eq!(Obstacle::with_gap(0, 0, 30).size, 20);
    assert_eq!(Obstacle::with_gap(0, 10, 30).size, 10);
    assert_eq!(Obstacle::with_gap(0, 18, 30).size, 2);
    assert_eq!(Obstacle::with_gap(0, 19, 30).size, 2);
    assert_eq!(Obstacle::with_gap(0, 1000, 30).size, 2);
}

#[test]
fn random_obstacle_stays_in_range() {
    let mut rng = GameRng::new();
    for _ in 0..50 {
        let o = Obstacle::new(80, 0, &mut rng);
        assert!(10 <= o.gap_y && o.gap_y < 50);
        assert_eq!(o.size, 20);
        assert_eq!(o.x, 80);
    }
}

#[test]
fn collision_exact_cases() {
    let o = Obstacle { x: 80, gap_y: 30, size: 10 };
    assert!(o.hit_obstacle(&Player { x: 80, y: 10, velocity: 0 }));
    assert!(!o.hit_obstacle(&Player { x: 80, y: 28, velocity: 0 }));
    assert!(!o.hit_obstacle(&Player { x: 79, y: 0, velocity: 0 }));
    // The gap boundary itself does not collide.
    assert!(!o.hit_obstacle(&Player { x: 80, y: 25, velocity: 0 }));
    assert!(!o.hit_obstacle(&Player { x: 80, y: 35, velocity: 0 }));
    assert!(o.hit_obstacle(&Player { x: 80, y: 24, velocity: 0 }));
    assert!(o.hit_obstacle(&Player { x: 80, y: 36, velocity: 0 }));
}

#[test]
fn out_of_bounds_cases() {
    assert!(out_of_bounds(&Player { x: 0, y: 51, velocity: 0 }, 50));
    assert!(!out_of_bounds(&Player { x: 0, y: 50, velocity: 0 }, 50));
}

#[test]
fn flap_overwrites_velocity() {
    let mut p = Player { x: 5, y: 25, velocity: 14 };
    p.flap();
    assert_eq!(p.velocity, -20);
    // Flapping while already rising has no greater effect.
    p.flap();
    assert_eq!(p.velocity, -20);
    assert_eq!((p.x, p.y), (5, 25));
}

#[test]
fn velocity_never_exceeds_terminal_speed() {
    let mut p = Player::new(5, 25);
    for _ in 0..40 {
        p.gravity_and_move();
        assert!(p.velocity <= 20);
    }
    assert_eq!(p.velocity, 20);
}

#[test]
fn floor_clamp_keeps_y_nonnegative() {
    let mut p = Player { x: 5, y: 0, velocity: -20 };
    for _ in 0..10 {
        p.gravity_and_move();
        assert!(p.y >= 0);
    }
    assert_eq!(p.y, 0);
}

#[test]
fn truncating_integration() {
    let mut p = Player::new(5, 25);
    // One tick: velocity becomes 2 tenths, which moves zero whole cells.
    p.gravity_and_move();
    assert_eq!((p.x, p.y, p.velocity), (6, 25, 2));
    // Four more ticks reach a whole cell per tick.
    for _ in 0..4 {
        p.gravity_and_move();
    }
    assert_eq!((p.x, p.y, p.velocity), (10, 26, 10));
}

#[test]
fn accumulator_fires_once_past_threshold() {
    let mut f = FrameAccumulator::new();
    assert!(!f.accumulate(75));
    assert_eq!(f.accumulated_ms, 75);
    assert!(f.accumulate(1));
    assert_eq!(f.accumulated_ms, 0);
    assert!(!f.accumulate(0));
    assert!(f.accumulate(400));
    assert_eq!(f.accumulated_ms, 0);
}

#[test]
fn restart_resets_session() {
    let mut s = State::new(80, 50, GameRng::seeded(7));
    // Put the session into a dirty state first.
    s.score = 9;
    s.player = Player { x: 200, y: 3, velocity: 18 };
    s.frame_time.accumulated_ms = 60;
    s.mode = GameMode::End;
    s.restart();
    assert_eq!(s.mode, GameMode::Playing);
    assert_eq!(s.score, 0);
    assert_eq!((s.player.x, s.player.y, s.player.velocity), (5, 25, 0));
    assert_eq!(s.frame_time.accumulated_ms, 0);
    assert_eq!(s.obstacle.x, 80);
    assert_eq!(s.obstacle.size, 20);
    assert!(10 <= s.obstacle.gap_y && s.obstacle.gap_y < 50);
}

#[test]
fn quit_is_reported_from_menu_and_end() {
    let mut s = State::new(80, 50, GameRng::new());
    let out = s.advance(InputEvent::Quit, 0);
    assert!(out.quit);
    assert_eq!(s.mode, GameMode::Menu);
    s.mode = GameMode::End;
    let out = s.advance(InputEvent::Quit, 0);
    assert!(out.quit);
    // Unknown input is a no-op.
    let out = s.advance(InputEvent::Idle, 0);
    assert!(!out.quit);
    assert_eq!(s.mode, GameMode::End);
}

#[test]
fn end_to_end_scenario() {
    let mut s = State::new(80, 50, GameRng::new());
    assert_eq!(s.mode, GameMode::Menu);
    let out = s.advance(InputEvent::Start, 0);
    assert!(!out.quit);
    assert_eq!(s.mode, GameMode::Playing);
    assert_eq!(s.score, 0);

    // 400 ms in one call: exactly one gravity tick.
    s.advance(InputEvent::Idle, 400);
    assert_eq!(s.player.velocity, 2);
    assert_eq!(s.player.y, 25);
    assert_eq!(s.player.x, 6);

    // A flap with no elapsed time: velocity overwritten, no movement.
    s.advance(InputEvent::Flap, 0);
    assert_eq!(s.player.velocity, -20);
    assert_eq!(s.player.y, 25);
    assert_eq!(s.player.x, 6);
}

#[test]
fn pass_through_scores_once() {
    let mut s = State {
        width: 80,
        height: 50,
        player: Player { x: 5, y: 25, velocity: 0 },
        frame_time: FrameAccumulator { accumulated_ms: 0 },
        mode: GameMode::Playing,
        obstacle: Obstacle { x: 80, gap_y: 30, size: 20 },
        score: 0,
        rng: GameRng::seeded(3),
    };
    let mut scored_at_x = None;
    for _ in 0..200 {
        if s.mode != GameMode::Playing || scored_at_x.is_some() {
            break;
        }
        // Steer toward the gap centre so the barrier is passed alive.
        let input = if s.player.y > s.obstacle.gap_y {
            InputEvent::Flap
        } else {
            InputEvent::Idle
        };
        let before = s.score;
        s.advance(input, 76);
        if s.player.x <= 80 {
            assert_eq!(s.score, 0);
        }
        if s.score == 1 {
            assert_eq!(before, 0);
            scored_at_x = Some(s.player.x);
        }
    }
    assert_eq!(s.mode, GameMode::Playing);
    // Exactly one increment, at the first call where x exceeds 80.
    assert_eq!(scored_at_x, Some(81));
    // The fresh obstacle stands one screen ahead, sized for score 1.
    assert_eq!(s.obstacle.x, 81 + 80);
    assert_eq!(s.obstacle.size, 19);
    assert!(10 <= s.obstacle.gap_y && s.obstacle.gap_y < 50);
}

#[test]
fn collision_ends_the_game() {
    let mut s = State {
        width: 80,
        height: 50,
        player: Player { x: 79, y: 5, velocity: 0 },
        frame_time: FrameAccumulator { accumulated_ms: 0 },
        mode: GameMode::Playing,
        obstacle: Obstacle { x: 80, gap_y: 30, size: 10 },
        score: 0,
        rng: GameRng::seeded(3),
    };
    // One tick moves the player onto the barrier column, above the gap.
    s.advance(InputEvent::Idle, 76);
    assert_eq!(s.player.x, 80);
    assert_eq!(s.mode, GameMode::End);
}

#[test]
fn falling_out_ends_the_game() {
    let mut s = State {
        width: 80,
        height: 10,
        player: Player { x: 5, y: 10, velocity: 20 },
        frame_time: FrameAccumulator { accumulated_ms: 0 },
        mode: GameMode::Playing,
        obstacle: Obstacle { x: 80, gap_y: 30, size: 10 },
        score: 0,
        rng: GameRng::seeded(3),
    };
    s.advance(InputEvent::Idle, 76);
    assert_eq!(s.player.y, 12);
    assert_eq!(s.mode, GameMode::End);
}
