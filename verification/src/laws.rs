use vstd::prelude::*;

use crate::ball::{side_of_coin, Ball, BASE_SPEED_LEVEL, MAX_SPEED_LEVEL};
use crate::constants::WIN_SCORE;
use crate::game::{
    menu_selection, pause_selection, Difficulty, Game, GameMode, GameState, KeyPresses, LeftPaddle, Motion, Point,
    MENU_LAST,
};
use crate::score::Score;

verus! {

/// A frame in which only the given keys were pressed.
pub open spec fn only(up: bool, down: bool, enter: bool, escape: bool, r: bool) -> KeyPresses {
    KeyPresses { up, down, enter, escape, r }
}

/// Every frame keeps a well-formed game well-formed.
pub proof fn frame_keeps_wf(g: Game, keys: KeyPresses)
    requires
        g.wf(),
    ensures
        g.frame(keys).game.wf(),
{
}

/// Key presses never score: a frame leaves the score and the ball's speed as
/// they were, unless it sets up a new match, which starts at 0:0 and the
/// initial speed.  A frame never names a winner and never ends a match.
pub proof fn frame_never_scores(g: Game, keys: KeyPresses)
    requires
        g.wf(),
    ensures
        !g.frame(keys).reset ==> g.frame(keys).game.score == g.score && g.frame(keys).game.ball
            == g.ball,
        g.frame(keys).reset ==> g.frame(keys).game.score == (Score { left: 0, right: 0 })
            && g.frame(keys).game.ball == (Ball { speed_level: BASE_SPEED_LEVEL }),
        g.frame(keys).game.winner == g.winner,
        g.frame(keys).game.game_state == GameState::GameOver ==> g.game_state
            == GameState::GameOver,
{
}

/// Pausing a rally with Escape and pressing Escape again resumes it exactly
/// where it was.
pub proof fn pause_then_resume(g: Game)
    requires
        g.wf(),
        g.game_state == GameState::Playing,
    ensures
        ({
            let esc = only(false, false, false, true, false);
            let paused = g.frame(esc);
            &&& paused.game.game_state == (GameState::Pause { selected: 0 })
            &&& paused.motion == Motion::Still
            &&& !paused.reset
            &&& paused.game.frame(esc).game == g
            &&& !paused.game.frame(esc).reset
        }),
{
}

/// In the main menu, Down followed by Up returns to the same entry.
pub proof fn menu_down_then_up(g: Game, selected: usize)
    requires
        g.wf(),
        g.game_state == (GameState::Menu { selected }),
        selected < MENU_LAST,
    ensures
        g.frame(only(false, true, false, false, false)).game.frame(
            only(true, false, false, false, false),
        ).game == g,
{
}

/// In the pause menu, pressing Up twice returns to the same entry.
pub proof fn pause_toggle_twice(g: Game, selected: usize)
    requires
        g.wf(),
        g.game_state == (GameState::Pause { selected }),
    ensures
        g.frame(only(true, false, false, false, false)).game.frame(
            only(true, false, false, false, false),
        ).game == g,
{
}

/// Escape (without Enter) leaves the controls screen and the difficulty menu
/// for the first entry of the main menu, changing nothing else.
pub proof fn escape_returns_to_menu(g: Game, keys: KeyPresses)
    requires
        g.wf(),
        g.game_state == GameState::Controls || g.game_state is DifficultyMenu,
        keys.escape,
        !keys.enter,
    ensures
        g.frame(keys).game == g.in_state(GameState::Menu { selected: 0 }),
        !g.frame(keys).reset,
{
}

/// The speed level after `n` increases of `level`.
pub open spec fn raised_times(level: u32, n: nat) -> u32
    decreases n,
{
    if n == 0 {
        level
    } else {
        Ball::raised(raised_times(level, (n - 1) as nat))
    }
}

/// After `n` conceded points a ball served at its initial speed is served
/// `n` tenths faster, but never faster than twice the initial speed.
pub proof fn speed_after_points(n: nat)
    ensures
        raised_times(BASE_SPEED_LEVEL, n) == if BASE_SPEED_LEVEL + n <= MAX_SPEED_LEVEL {
            BASE_SPEED_LEVEL + n
        } else {
            MAX_SPEED_LEVEL as int
        },
    decreases n,
{
    if n > 0 {
        speed_after_points((n - 1) as nat);
    }
}

/// A point adds exactly one to the scorer and nothing to the other player:
/// the ball out on the left is a point for the right player, out on the
/// right (and not on the left) a point for the left player.
pub proof fn point_adds_one_to_scorer(s: Score, left_exit: bool, right_exit: bool)
    requires
        s.left < u32::MAX,
        s.right < u32::MAX,
    ensures
        left_exit ==> Score::point_of(left_exit, right_exit) == Some(Point::Right) && s.after(
            Score::point_of(left_exit, right_exit),
        ).right == s.right + 1 && s.after(Score::point_of(left_exit, right_exit)).left == s.left,
        !left_exit && right_exit ==> Score::point_of(left_exit, right_exit) == Some(Point::Left)
            && s.after(Score::point_of(left_exit, right_exit)).left == s.left + 1 && s.after(
            Score::point_of(left_exit, right_exit),
        ).right == s.right,
        !left_exit && !right_exit ==> Score::point_of(left_exit, right_exit) is None && s.after(
            Score::point_of(left_exit, right_exit),
        ) == s,
{
}

/// A point settled in a rally that does not end the match adds exactly one
/// to the scorer and nothing to the other player; one that ends it does the
/// same and names the scorer the winner.
pub proof fn rally_point_adds_one(g: Game, left_exit: bool, right_exit: bool)
    requires
        g.wf(),
        g.game_state == GameState::Playing,
    ensures
        left_exit ==> g.score.after(Score::point_of(left_exit, right_exit)) == (Score {
            left: g.score.left,
            right: (g.score.right + 1) as u32,
        }),
        !left_exit && right_exit ==> g.score.after(Score::point_of(left_exit, right_exit)) == (
        Score { left: (g.score.left + 1) as u32, right: g.score.right }),
        left_exit && g.score.right + 1 == WIN_SCORE ==> g.score.after(
            Score::point_of(left_exit, right_exit),
        ).right >= WIN_SCORE && g.score.after(Score::point_of(left_exit, right_exit)).left
            < WIN_SCORE,
{
}

/// Enter on the first entry of the main menu starts setting up a
/// single-player match and opens the difficulty menu; on the second entry it
/// starts a two-player match with a count-down.  Either way the match is new
/// (0:0), whatever mode was played before.
pub proof fn main_menu_chooses_mode(g: Game, keys: KeyPresses, selected: usize)
    requires
        g.wf(),
        g.game_state == (GameState::Menu { selected }),
        keys.enter,
    ensures
        menu_selection(selected, keys) == 0 ==> {
            &&& g.frame(keys).game.game_mode == GameMode::SinglePlayer
            &&& g.frame(keys).game.game_state == (GameState::DifficultyMenu { selected: 0 })
            &&& g.frame(keys).game.score == (Score { left: 0, right: 0 })
            &&& g.frame(keys).reset
            &&& !g.frame(keys).exit
        },
        menu_selection(selected, keys) == 1 ==> {
            &&& g.frame(keys).game.game_mode == GameMode::TwoPlayer
            &&& g.frame(keys).game.game_state == GameState::CountDown
            &&& g.frame(keys).game.score == (Score { left: 0, right: 0 })
            &&& g.frame(keys).reset
            &&& g.frame(keys).start_countdown
            &&& !g.frame(keys).exit
        },
        menu_selection(selected, keys) == 2 ==> g.frame(keys).game == g.in_state(
            GameState::Controls,
        ) && !g.frame(keys).reset && !g.frame(keys).exit,
        menu_selection(selected, keys) == 3 ==> g.frame(keys).exit && !g.frame(keys).reset,
{
}

/// Enter on the first three entries of the difficulty menu chooses Easy,
/// Medium and Hard respectively, whatever the difficulty was before, and
/// (unless Escape is pressed too) starts a new match with a count-down; the
/// mode is left as it was.
pub proof fn difficulty_menu_chooses_difficulty(g: Game, keys: KeyPresses, selected: usize)
    requires
        g.wf(),
        g.game_state == (GameState::DifficultyMenu { selected }),
        keys.enter,
    ensures
        menu_selection(selected, keys) == 0 ==> g.frame(keys).game.difficulty == Difficulty::Easy,
        menu_selection(selected, keys) == 1 ==> g.frame(keys).game.difficulty
            == Difficulty::Medium,
        menu_selection(selected, keys) == 2 ==> g.frame(keys).game.difficulty == Difficulty::Hard,
        menu_selection(selected, keys) < 3 ==> {
            &&& g.frame(keys).game.game_mode == g.game_mode
            &&& g.frame(keys).game.score == (Score { left: 0, right: 0 })
            &&& g.frame(keys).reset
            &&& g.frame(keys).start_countdown
            &&& !keys.escape ==> g.frame(keys).game.game_state == GameState::CountDown
        },
        menu_selection(selected, keys) == 3 ==> g.frame(keys).game.difficulty == g.difficulty
            && g.frame(keys).game.game_state == (GameState::Menu { selected: 0 })
            && !g.frame(keys).reset,
{
}

/// In single-player mode the computer drives the left paddle at the game's
/// difficulty; in two-player mode the second player drives it with W and S.
pub proof fn left_paddle_follows_mode(g: Game)
    ensures
        g.game_mode == GameMode::SinglePlayer ==> g.left_driver() == LeftPaddle::Ai(
            g.difficulty,
        ),
        g.game_mode == GameMode::TwoPlayer ==> g.left_driver() == LeftPaddle::Keys,
{
}

/// During the count-down and during a rally both paddles move, the left one
/// driven as the mode says: by the second player in two-player mode, by the
/// computer at the game's difficulty in single-player mode.  Neither frame
/// changes the game (Escape in a rally pauses it instead).
pub proof fn paddles_move_as_mode_says(g: Game, keys: KeyPresses)
    requires
        g.wf(),
    ensures
        g.game_state == GameState::CountDown ==> {
            &&& g.game_mode == GameMode::TwoPlayer ==> g.frame(keys).motion == Motion::Countdown(
                LeftPaddle::Keys,
            )
            &&& g.game_mode == GameMode::SinglePlayer ==> g.frame(keys).motion
                == Motion::Countdown(LeftPaddle::Ai(g.difficulty))
            &&& g.frame(keys).game == g
            &&& !g.frame(keys).reset
        },
        g.game_state == GameState::Playing && !keys.escape ==> {
            &&& g.game_mode == GameMode::TwoPlayer ==> g.frame(keys).motion == Motion::Rally(
                LeftPaddle::Keys,
            )
            &&& g.game_mode == GameMode::SinglePlayer ==> g.frame(keys).motion == Motion::Rally(
                LeftPaddle::Ai(g.difficulty),
            )
            &&& g.frame(keys).game == g
            &&& !g.frame(keys).reset
        },
{
}

/// Menu navigation moves the selection by one entry per key and never past
/// the first or the last of the four entries: Down alone moves to the next
/// entry unless on the last, Up alone to the previous unless on the first,
/// both together move down then up.
pub proof fn menu_navigation(selected: usize, keys: KeyPresses)
    requires
        selected <= MENU_LAST,
    ensures
        menu_selection(selected, keys) <= MENU_LAST,
        !keys.up && !keys.down ==> menu_selection(selected, keys) == selected,
        !keys.up && keys.down && selected < 3 ==> menu_selection(selected, keys) == selected + 1,
        !keys.up && keys.down && selected == 3 ==> menu_selection(selected, keys) == 3,
        keys.up && !keys.down && selected > 0 ==> menu_selection(selected, keys) == selected - 1,
        keys.up && !keys.down && selected == 0 ==> menu_selection(selected, keys) == 0,
        keys.up && keys.down && selected < 3 ==> menu_selection(selected, keys) == selected,
        keys.up && keys.down && selected == 3 ==> menu_selection(selected, keys) == 2,
{
}

/// In the pause menu, each of Up and Down switches to the other of its two
/// entries; both together switch twice and so stay.
pub proof fn pause_navigation(selected: usize, keys: KeyPresses)
    requires
        selected <= 1,
    ensures
        pause_selection(selected, keys) <= 1,
        keys.up == keys.down ==> pause_selection(selected, keys) == selected,
        keys.up != keys.down ==> pause_selection(selected, keys) == 1 - selected,
{
}

/// A frame that changes only the menu selection: the main or difficulty menu
/// without Enter or Escape, the pause menu without Enter or Escape.
pub proof fn navigation_changes_only_selection(g: Game, keys: KeyPresses)
    requires
        g.wf(),
        !keys.enter,
        !keys.escape,
    ensures
        g.game_state matches GameState::Menu { selected } ==> g.frame(keys).game == g.in_state(
            GameState::Menu { selected: menu_selection(selected, keys) },
        ) && !g.frame(keys).reset && !g.frame(keys).exit,
        g.game_state matches GameState::DifficultyMenu { selected } ==> g.frame(keys).game
            == g.in_state(GameState::DifficultyMenu { selected: menu_selection(selected, keys) })
            && !g.frame(keys).reset,
        g.game_state matches GameState::Pause { selected } ==> g.frame(keys).game == g.in_state(
            GameState::Pause { selected: pause_selection(selected, keys) },
        ) && !g.frame(keys).reset,
{
}

/// Escape during a rally pauses it on the first entry of the pause menu,
/// changing nothing else.
pub proof fn escape_pauses_rally(g: Game, keys: KeyPresses)
    requires
        g.wf(),
        g.game_state == GameState::Playing,
        keys.escape,
    ensures
        g.frame(keys).game == g.in_state(GameState::Pause { selected: 0 }),
        g.frame(keys).motion == Motion::Still,
        !g.frame(keys).reset,
        !g.frame(keys).start_countdown,
{
}

/// In the pause menu, Enter on the first entry abandons the match for the
/// main menu with a new match set up (0:0), Enter on the second resumes the
/// rally as it was; Escape always resumes play.
pub proof fn pause_menu_entries(g: Game, keys: KeyPresses, selected: usize)
    requires
        g.wf(),
        g.game_state == (GameState::Pause { selected }),
        keys.enter,
        !keys.escape,
    ensures
        pause_selection(selected, keys) == 0 ==> {
            &&& g.frame(keys).game.game_state == (GameState::Menu { selected: 0 })
            &&& g.frame(keys).game.score == (Score { left: 0, right: 0 })
            &&& g.frame(keys).game.ball.speed_level == BASE_SPEED_LEVEL
            &&& g.frame(keys).reset
        },
        pause_selection(selected, keys) == 1 ==> g.frame(keys).game == g.in_state(
            GameState::Playing,
        ) && !g.frame(keys).reset,
{
}

/// On the game-over screen R starts a new match (0:0, initial speed, same
/// mode and difficulty) with a count-down, and Escape goes back to the main
/// menu with a new match set up; other keys change nothing.
pub proof fn game_over_keys(g: Game, keys: KeyPresses)
    requires
        g.wf(),
        g.game_state == GameState::GameOver,
    ensures
        !keys.r && !keys.escape ==> g.frame(keys).game == g && !g.frame(keys).reset,
        keys.r || keys.escape ==> {
            &&& g.frame(keys).reset
            &&& g.frame(keys).game.score == (Score { left: 0, right: 0 })
            &&& g.frame(keys).game.ball.speed_level == BASE_SPEED_LEVEL
            &&& g.frame(keys).game.game_mode == g.game_mode
            &&& g.frame(keys).game.difficulty == g.difficulty
        },
        keys.r && !keys.escape ==> g.frame(keys).game.game_state == GameState::CountDown
            && g.frame(keys).start_countdown,
        keys.escape ==> g.frame(keys).game.game_state == (GameState::Menu { selected: 0 }),
{
}

/// A coin of 0 serves a new match to the left player, a coin of 1 to the
/// right player.
pub proof fn coin_picks_side()
    ensures
        side_of_coin(0) == Point::Left,
        side_of_coin(1) == Point::Right,
{
}

/// One increase of the speed level adds one tenth of the initial speed, but
/// never goes past twice the initial speed.
pub proof fn speed_step(level: u32)
    ensures
        level < MAX_SPEED_LEVEL ==> Ball::raised(level) == level + 1,
        level >= MAX_SPEED_LEVEL ==> Ball::raised(level) == MAX_SPEED_LEVEL,
        MAX_SPEED_LEVEL == 2 * BASE_SPEED_LEVEL,
{
}

} // verus!
