use pong::ball::{serve_side, Ball, BASE_SPEED_LEVEL, MAX_SPEED_LEVEL};
use pong::constants::WIN_SCORE;
use pong::game::{
    Difficulty, FrameEffects, Game, GameMode, GameState, KeyPresses, LeftPaddle, Motion, Point,
    PointEffects,
};
use pong::score::Score;

fn keys(up: bool, down: bool, enter: bool, escape: bool, r: bool) -> KeyPresses {
    KeyPresses { up, down, enter, escape, r }
}

fn none() -> KeyPresses {
    keys(false, false, false, false, false)
}
fn up() -> KeyPresses {
    keys(true, false, false, false, false)
}
fn down() -> KeyPresses {
    keys(false, true, false, false, false)
}
fn enter() -> KeyPresses {
    keys(false, false, true, false, false)
}
fn escape() -> KeyPresses {
    keys(false, false, false, true, false)
}
fn restart() -> KeyPresses {
    keys(false, false, false, false, true)
}

fn quiet() -> PointEffects {
    PointEffects { shrink_left: false, shrink_right: false, serve: None, start_countdown: false }
}

/// A two-player game that is in a rally.
fn rally() -> Game {
    let mut g = Game::new();
    g.update(down());
    let fx = g.update(enter());
    assert!(fx.reset.is_some());
    assert_eq!(g.game_state, GameState::CountDown);
    g.countdown_tick(true);
    assert_eq!(g.game_state, GameState::Playing);
    g
}

#[test]
fn score_default_is_zero() {
    assert_eq!(Score::default(), Score { left: 0, right: 0 });
}

#[test]
fn score_update_left_exit_is_point_for_right() {
    let mut s = Score { left: 2, right: 3 };
    assert_eq!(s.update(true, false), Some(Point::Right));
    assert_eq!(s, Score { left: 2, right: 4 });
}

#[test]
fn score_update_right_exit_is_point_for_left() {
    let mut s = Score { left: 2, right: 3 };
    assert_eq!(s.update(false, true), Some(Point::Left));
    assert_eq!(s, Score { left: 3, right: 3 });
}

#[test]
fn score_update_left_exit_takes_precedence() {
    let mut s = Score { left: 0, right: 0 };
    assert_eq!(s.update(true, true), Some(Point::Right));
    assert_eq!(s, Score { left: 0, right: 1 });
}

#[test]
fn score_update_no_exit_changes_nothing() {
    let mut s = Score { left: 1, right: 1 };
    assert_eq!(s.update(false, false), None);
    assert_eq!(s, Score { left: 1, right: 1 });
}

#[test]
fn ball_new_is_at_initial_speed() {
    assert_eq!(Ball::new().speed_level, BASE_SPEED_LEVEL);
    assert_eq!(BASE_SPEED_LEVEL, 10);
}

#[test]
fn increase_speed_adds_a_tenth() {
    let mut b = Ball::new();
    b.increase_speed();
    assert_eq!(b.speed_level, 11);
}

#[test]
fn increase_speed_is_capped_at_twice_the_initial_speed() {
    let mut b = Ball::new();
    for _ in 0..25 {
        b.increase_speed();
    }
    assert_eq!(b.speed_level, MAX_SPEED_LEVEL);
    assert_eq!(MAX_SPEED_LEVEL, 20);
    let mut fast = Ball { speed_level: 35 };
    fast.increase_speed();
    assert_eq!(fast.speed_level, MAX_SPEED_LEVEL);
}

#[test]
fn speed_after_points_matches_count() {
    let mut b = Ball::new();
    for n in 1..=15u32 {
        b.increase_speed();
        assert_eq!(b.speed_level, std::cmp::min(BASE_SPEED_LEVEL + n, MAX_SPEED_LEVEL));
    }
}

#[test]
fn reset_game_restores_speed_and_serves_both_ways() {
    let mut b = Ball { speed_level: 17 };
    let mut lefts = 0;
    let mut rights = 0;
    for _ in 0..200 {
        match b.reset_game() {
            Point::Left => lefts += 1,
            Point::Right => rights += 1,
        }
        assert_eq!(b.speed_level, BASE_SPEED_LEVEL);
    }
    assert!(lefts > 0);
    assert!(rights > 0);
}

#[test]
fn serve_side_from_coin() {
    assert_eq!(serve_side(0), Point::Left);
    assert_eq!(serve_side(1), Point::Right);
}

#[test]
fn serve_direction_points_to_scorer() {
    assert_eq!(Point::Left.serve_direction(), -1);
    assert_eq!(Point::Right.serve_direction(), 1);
}

#[test]
fn new_game_starts_in_menu() {
    let g = Game::new();
    assert_eq!(g.game_state, GameState::Menu { selected: 0 });
    assert_eq!(g.game_mode, GameMode::SinglePlayer);
    assert_eq!(g.difficulty, Difficulty::Medium);
    assert_eq!(g.score, Score { left: 0, right: 0 });
    assert_eq!(g.winner, "");
}

#[test]
fn menu_navigation_stays_in_range() {
    let mut g = Game::new();
    g.update(up());
    assert_eq!(g.game_state, GameState::Menu { selected: 0 });
    for _ in 0..6 {
        g.update(down());
    }
    assert_eq!(g.game_state, GameState::Menu { selected: 3 });
    g.update(keys(true, true, false, false, false));
    assert_eq!(g.game_state, GameState::Menu { selected: 2 });
}

#[test]
fn menu_down_then_up_returns() {
    let mut g = Game::new();
    g.update(down());
    g.update(down());
    assert_eq!(g.game_state, GameState::Menu { selected: 2 });
    g.update(up());
    assert_eq!(g.game_state, GameState::Menu { selected: 1 });
}

#[test]
fn menu_single_player_goes_to_difficulty() {
    let mut g = Game::new();
    let fx = g.update(enter());
    assert!(fx.reset.is_some());
    assert!(!fx.start_countdown);
    assert!(!fx.exit);
    assert_eq!(g.game_state, GameState::DifficultyMenu { selected: 0 });
    assert_eq!(g.game_mode, GameMode::SinglePlayer);
}

#[test]
fn menu_two_player_starts_countdown() {
    let mut g = Game::new();
    g.update(down());
    let fx = g.update(enter());
    assert!(fx.reset.is_some());
    assert!(fx.start_countdown);
    assert_eq!(g.game_state, GameState::CountDown);
    assert_eq!(g.game_mode, GameMode::TwoPlayer);
}

#[test]
fn menu_controls_and_back() {
    let mut g = Game::new();
    g.update(down());
    g.update(down());
    let fx = g.update(enter());
    assert_eq!(fx.reset, None);
    assert_eq!(g.game_state, GameState::Controls);
    g.update(none());
    assert_eq!(g.game_state, GameState::Controls);
    g.update(escape());
    assert_eq!(g.game_state, GameState::Menu { selected: 0 });
}

#[test]
fn menu_exit_entry_asks_to_quit() {
    let mut g = Game::new();
    for _ in 0..3 {
        g.update(down());
    }
    let fx = g.update(enter());
    assert!(fx.exit);
    assert_eq!(fx.reset, None);
}

#[test]
fn difficulty_choice_sets_difficulty_and_counts_down() {
    for (steps, expected) in [(0, Difficulty::Easy), (1, Difficulty::Medium), (2, Difficulty::Hard)] {
        let mut g = Game::new();
        g.update(enter());
        for _ in 0..steps {
            g.update(down());
        }
        let fx = g.update(enter());
        assert!(fx.reset.is_some());
        assert!(fx.start_countdown);
        assert_eq!(g.difficulty, expected);
        assert_eq!(g.game_state, GameState::CountDown);
    }
}

#[test]
fn difficulty_back_entry_returns_to_menu() {
    let mut g = Game::new();
    g.update(enter());
    for _ in 0..3 {
        g.update(down());
    }
    let fx = g.update(enter());
    assert_eq!(fx.reset, None);
    assert_eq!(g.game_state, GameState::Menu { selected: 0 });
    assert_eq!(g.difficulty, Difficulty::Medium);
}

#[test]
fn difficulty_escape_returns_to_menu() {
    let mut g = Game::new();
    g.update(enter());
    g.update(down());
    g.update(escape());
    assert_eq!(g.game_state, GameState::Menu { selected: 0 });
}

#[test]
fn difficulty_enter_and_escape_together_ends_in_menu() {
    let mut g = Game::new();
    g.update(enter());
    g.update(down());
    g.update(down());
    let fx = g.update(keys(false, false, true, true, false));
    assert!(fx.reset.is_some());
    assert_eq!(g.difficulty, Difficulty::Hard);
    assert_eq!(g.game_state, GameState::Menu { selected: 0 });
}

#[test]
fn countdown_moves_paddles_until_clock_runs_out() {
    let mut g = Game::new();
    g.update(enter());
    g.update(down());
    g.update(down());
    g.update(enter());
    let fx = g.update(none());
    assert_eq!(fx.motion, Motion::Countdown(LeftPaddle::Ai(Difficulty::Hard)));
    g.countdown_tick(false);
    assert_eq!(g.game_state, GameState::CountDown);
    g.countdown_tick(true);
    assert_eq!(g.game_state, GameState::Playing);
    let fx = g.update(none());
    assert_eq!(fx.motion, Motion::Rally(LeftPaddle::Ai(Difficulty::Hard)));
}

#[test]
fn countdown_tick_outside_countdown_does_nothing() {
    let mut g = Game::new();
    g.countdown_tick(true);
    assert_eq!(g.game_state, GameState::Menu { selected: 0 });
}

#[test]
fn two_player_left_paddle_uses_keys() {
    let mut g = rally();
    assert_eq!(g.left_paddle(), LeftPaddle::Keys);
    let fx = g.update(none());
    assert_eq!(
        fx,
        FrameEffects { exit: false, reset: None, start_countdown: false, motion: Motion::Rally(LeftPaddle::Keys) }
    );
}

#[test]
fn point_for_right_shrinks_left_paddle() {
    let mut g = rally();
    let fx = g.resolve_point(true, false);
    assert_eq!(
        fx,
        PointEffects { shrink_left: true, shrink_right: false, serve: Some(Point::Right), start_countdown: true }
    );
    assert_eq!(g.score, Score { left: 0, right: 1 });
    assert_eq!(g.ball.speed_level, 11);
    assert_eq!(g.game_state, GameState::CountDown);
}

#[test]
fn point_for_left_shrinks_right_paddle() {
    let mut g = rally();
    let fx = g.resolve_point(false, true);
    assert_eq!(
        fx,
        PointEffects { shrink_left: false, shrink_right: true, serve: Some(Point::Left), start_countdown: true }
    );
    assert_eq!(g.score, Score { left: 1, right: 0 });
}

#[test]
fn no_exit_keeps_rally_going() {
    let mut g = rally();
    assert_eq!(g.resolve_point(false, false), quiet());
    assert_eq!(g.game_state, GameState::Playing);
    assert_eq!(g.score, Score { left: 0, right: 0 });
}

#[test]
fn resolve_point_outside_rally_does_nothing() {
    let mut g = Game::new();
    assert_eq!(g.resolve_point(true, false), quiet());
    assert_eq!(g.score, Score { left: 0, right: 0 });
}

#[test]
fn left_player_wins_at_win_score() {
    let mut g = rally();
    for i in 1..WIN_SCORE {
        g.resolve_point(false, true);
        assert_eq!(g.score.left, i);
        g.countdown_tick(true);
    }
    let fx = g.resolve_point(false, true);
    assert_eq!(fx, quiet());
    assert_eq!(g.game_state, GameState::GameOver);
    assert_eq!(g.winner, "Left player wins!");
    assert_eq!(g.score, Score { left: WIN_SCORE, right: 0 });
}

#[test]
fn right_player_wins_at_win_score() {
    let mut g = rally();
    for _ in 1..WIN_SCORE {
        g.resolve_point(true, false);
        g.countdown_tick(true);
    }
    g.resolve_point(true, false);
    assert_eq!(g.game_state, GameState::GameOver);
    assert_eq!(g.winner, "Right player wins!");
    assert_eq!(g.ball.speed_level, BASE_SPEED_LEVEL + WIN_SCORE - 1);
}

#[test]
fn game_over_restart_and_menu() {
    let mut g = rally();
    for _ in 0..WIN_SCORE {
        g.resolve_point(true, false);
        g.countdown_tick(true);
    }
    assert_eq!(g.game_state, GameState::GameOver);
    let fx = g.update(none());
    assert_eq!(fx.reset, None);
    assert_eq!(g.game_state, GameState::GameOver);
    let fx = g.update(restart());
    assert!(fx.reset.is_some());
    assert!(fx.start_countdown);
    assert_eq!(g.game_state, GameState::CountDown);
    assert_eq!(g.score, Score { left: 0, right: 0 });
    assert_eq!(g.ball.speed_level, BASE_SPEED_LEVEL);
    // The winner text stays until the next match ends.
    assert_eq!(g.winner, "Right player wins!");
}

#[test]
fn game_over_escape_goes_to_menu() {
    let mut g = rally();
    for _ in 0..WIN_SCORE {
        g.resolve_point(false, true);
        g.countdown_tick(true);
    }
    let fx = g.update(escape());
    assert!(fx.reset.is_some());
    assert!(!fx.start_countdown);
    assert_eq!(g.game_state, GameState::Menu { selected: 0 });
    assert_eq!(g.score, Score { left: 0, right: 0 });
}

#[test]
fn pause_then_escape_resumes() {
    let mut g = rally();
    g.resolve_point(false, true);
    g.countdown_tick(true);
    let fx = g.update(escape());
    assert_eq!(fx.motion, Motion::Still);
    assert_eq!(g.game_state, GameState::Pause { selected: 0 });
    let fx = g.update(escape());
    assert_eq!(fx.reset, None);
    assert_eq!(g.game_state, GameState::Playing);
    assert_eq!(g.score, Score { left: 1, right: 0 });
    assert_eq!(g.ball.speed_level, 11);
}

#[test]
fn pause_selection_toggles() {
    let mut g = rally();
    g.update(escape());
    g.update(up());
    assert_eq!(g.game_state, GameState::Pause { selected: 1 });
    g.update(up());
    assert_eq!(g.game_state, GameState::Pause { selected: 0 });
    g.update(down());
    assert_eq!(g.game_state, GameState::Pause { selected: 1 });
    g.update(keys(true, true, false, false, false));
    assert_eq!(g.game_state, GameState::Pause { selected: 1 });
}

#[test]
fn pause_resume_entry() {
    let mut g = rally();
    g.update(escape());
    g.update(down());
    let fx = g.update(enter());
    assert_eq!(fx.reset, None);
    assert_eq!(g.game_state, GameState::Playing);
}

#[test]
fn pause_menu_entry_resets_match() {
    let mut g = rally();
    g.resolve_point(true, false);
    g.countdown_tick(true);
    g.update(escape());
    let fx = g.update(enter());
    assert!(fx.reset.is_some());
    assert_eq!(g.game_state, GameState::Menu { selected: 0 });
    assert_eq!(g.score, Score { left: 0, right: 0 });
    assert_eq!(g.ball.speed_level, BASE_SPEED_LEVEL);
}

#[test]
fn pause_enter_and_escape_together_resumes_a_fresh_match() {
    let mut g = rally();
    g.resolve_point(true, false);
    g.countdown_tick(true);
    g.update(escape());
    let fx = g.update(keys(false, false, true, true, false));
    assert!(fx.reset.is_some());
    assert_eq!(g.game_state, GameState::Playing);
    assert_eq!(g.score, Score { left: 0, right: 0 });
}
