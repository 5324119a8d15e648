use vstd::prelude::*;

use crate::ball::{Ball, BASE_SPEED_LEVEL, MAX_SPEED_LEVEL};
use crate::constants::WIN_SCORE;
use crate::score::Score;

verus! {

/// The player who scored a point: `Left` when the ball left the field on the
/// right-hand side, `Right` when it left on the left-hand side.
#[derive(Clone, Copy, Debug, PartialEq, Eq, Structural)]
pub enum Point {
    Left,
    Right,
}

/// Where the game is.  The count-down's clock is kept by the caller, who
/// reports through [`Game::countdown_tick`] when it has run out.
#[derive(Clone, Copy, Debug, PartialEq, Eq, Structural)]
pub enum GameState {
    Menu { selected: usize },
    DifficultyMenu { selected: usize },
    Controls,
    CountDown,
    Playing,
    Pause { selected: usize },
    GameOver,
}

#[derive(Clone, Copy, Debug, PartialEq, Eq, Structural)]
pub enum GameMode {
    SinglePlayer,
    TwoPlayer,
}

#[derive(Clone, Copy, Debug, PartialEq, Eq, Structural)]
pub enum Difficulty {
    Easy,
    Medium,
    Hard,
}

/// Index of the last entry of the main menu and of the difficulty menu
/// (each has four entries).
pub const MENU_LAST: usize = 3;

/// The keys pressed (not held) during one frame.
#[derive(Clone, Copy, Debug, PartialEq, Eq, Structural)]
pub struct KeyPresses {
    pub up: bool,
    pub down: bool,
    pub enter: bool,
    pub escape: bool,
    pub r: bool,
}

/// Who moves the left paddle.
#[derive(Clone, Copy, Debug, PartialEq, Eq, Structural)]
pub enum LeftPaddle {
    /// The computer, at the given difficulty.
    Ai(Difficulty),
    /// The second player, with the W and S keys.
    Keys,
}

/// The motion the caller has to simulate in this frame.
#[derive(Clone, Copy, Debug, PartialEq, Eq, Structural)]
pub enum Motion {
    /// Nothing moves.
    Still,
    /// Both paddles move and the count-down clock runs; afterwards the
    /// caller reports to [`Game::countdown_tick`] whether it ran out.
    Countdown(LeftPaddle),
    /// Both paddles and the ball move; afterwards the caller reports to
    /// [`Game::resolve_point`] whether the ball left the field.
    Rally(LeftPaddle),
}

/// What the caller has to do after [`Game::update`].
#[derive(Clone, Copy, Debug, PartialEq, Eq, Structural)]
pub struct FrameEffects {
    /// Quit the program.
    pub exit: bool,
    /// A new match was set up: put both paddles and the ball back in their
    /// starting places and serve towards the given side.
    pub reset: Option<Point>,
    /// Restart the count-down clock.
    pub start_countdown: bool,
    pub motion: Motion,
}

/// What the caller has to do after [`Game::resolve_point`].
#[derive(Clone, Copy, Debug, PartialEq, Eq, Structural)]
pub struct PointEffects {
    pub shrink_left: bool,
    pub shrink_right: bool,
    /// Re-serve the ball from the centre after this point.
    pub serve: Option<Point>,
    /// Restart the count-down clock.
    pub start_countdown: bool,
}

/// The rules' view of a game.
pub struct Game {
    pub ball: Ball,
    pub score: Score,
    pub game_state: GameState,
    pub game_mode: GameMode,
    pub difficulty: Difficulty,
    pub winner: String,
}

/// The outcome of one frame of [`Game::update`], as the rules define it.
pub struct Frame {
    pub game: Game,
    pub exit: bool,
    /// Whether a new match was set up (the side of its serve is left to
    /// chance).
    pub reset: bool,
    pub start_countdown: bool,
    pub motion: Motion,
}

pub open spec fn left_wins_text() -> Seq<char> {
    "Left player wins!"@
}

pub open spec fn right_wins_text() -> Seq<char> {
    "Right player wins!"@
}

/// The selection of the main or difficulty menu after a frame: Down moves to
/// the next entry unless on the last one, then Up moves to the previous entry
/// unless on the first one.
pub open spec fn menu_selection(selected: usize, keys: KeyPresses) -> usize {
    let s = if keys.down && selected < MENU_LAST { (selected + 1) as usize } else { selected };
    if keys.up { if s > 0 { (s - 1) as usize } else { 0 } } else { s }
}

/// The selection of the pause menu after a frame: each of Up and Down moves
/// to the other of its two entries.
pub open spec fn pause_selection(selected: usize, keys: KeyPresses) -> usize {
    let s = if keys.up { ((selected + 1) % 2) as usize } else { selected };
    if keys.down { ((s + 1) % 2) as usize } else { s }
}

impl Game {
    /// The menu selections are in range, the ball's speed level is between
    /// the initial speed and twice that, nobody has won outside the game-over
    /// screen, and on the game-over screen exactly one player has reached the
    /// winning score and is named the winner.
    pub open spec fn wf(&self) -> bool {
        &&& match self.game_state {
            GameState::Menu { selected } => selected <= MENU_LAST,
            GameState::DifficultyMenu { selected } => selected <= MENU_LAST,
            GameState::Pause { selected } => selected <= 1,
            _ => true,
        }
        &&& BASE_SPEED_LEVEL <= self.ball.speed_level <= MAX_SPEED_LEVEL
        &&& self.game_state != GameState::GameOver ==> {
            &&& self.score.left < WIN_SCORE
            &&& self.score.right < WIN_SCORE
        }
        &&& self.game_state == GameState::GameOver ==> {
            ||| self.score.left == WIN_SCORE && self.score.right < WIN_SCORE && self.winner@
                == left_wins_text()
            ||| self.score.right == WIN_SCORE && self.score.left < WIN_SCORE && self.winner@
                == right_wins_text()
        }
    }

    /// The game with a fresh match set up: no points, ball at its initial
    /// speed.
    pub open spec fn with_new_match(self) -> Game {
        Game {
            score: Score { left: 0, right: 0 },
            ball: Ball { speed_level: BASE_SPEED_LEVEL },
            ..self
        }
    }

    pub open spec fn in_state(self, state: GameState) -> Game {
        Game { game_state: state, ..self }
    }

    /// Who drives the left paddle: the computer in single-player mode.
    pub open spec fn left_driver(self) -> LeftPaddle {
        match self.game_mode {
            GameMode::SinglePlayer => LeftPaddle::Ai(self.difficulty),
            GameMode::TwoPlayer => LeftPaddle::Keys,
        }
    }

    /// One frame of the rules, given the keys pressed in it.
    pub open spec fn frame(self, keys: KeyPresses) -> Frame {
        let quiet = Frame {
            game: self,
            exit: false,
            reset: false,
            start_countdown: false,
            motion: Motion::Still,
        };
        match self.game_state {
            GameState::Menu { selected } => {
                let s = menu_selection(selected, keys);
                let g = self.in_state(GameState::Menu { selected: s });
                if !keys.enter {
                    Frame { game: g, ..quiet }
                } else if s == 0 {
                    Frame {
                        game: Game {
                            game_mode: GameMode::SinglePlayer,
                            ..g.with_new_match().in_state(GameState::DifficultyMenu { selected: 0 })
                        },
                        reset: true,
                        ..quiet
                    }
                } else if s == 1 {
                    Frame {
                        game: Game {
                            game_mode: GameMode::TwoPlayer,
                            ..g.with_new_match().in_state(GameState::CountDown)
                        },
                        reset: true,
                        start_countdown: true,
                        ..quiet
                    }
                } else if s == 2 {
                    Frame { game: g.in_state(GameState::Controls), ..quiet }
                } else if s == 3 {
                    Frame { game: g, exit: true, ..quiet }
                } else {
                    Frame { game: g.in_state(GameState::Menu { selected: 0 }), ..quiet }
                }
            },
            GameState::DifficultyMenu { selected } => {
                let s = menu_selection(selected, keys);
                let g = self.in_state(GameState::DifficultyMenu { selected: s });
                if keys.enter && s == 3 {
                    Frame { game: g.in_state(GameState::Menu { selected: 0 }), ..quiet }
                } else {
                    let chosen = if keys.enter {
                        let d = if s == 0 {
                            Difficulty::Easy
                        } else if s == 1 {
                            Difficulty::Medium
                        } else if s == 2 {
                            Difficulty::Hard
                        } else {
                            g.difficulty
                        };
                        Frame {
                            game: Game {
                                difficulty: d,
                                ..g.with_new_match().in_state(GameState::CountDown)
                            },
                            reset: true,
                            start_countdown: true,
                            ..quiet
                        }
                    } else {
                        Frame { game: g, ..quiet }
                    };
                    if keys.escape {
                        Frame {
                            game: chosen.game.in_state(GameState::Menu { selected: 0 }),
                            ..chosen
                        }
                    } else {
                        chosen
                    }
                }
            },
            GameState::Controls => {
                if keys.escape {
                    Frame { game: self.in_state(GameState::Menu { selected: 0 }), ..quiet }
                } else {
                    quiet
                }
            },
            GameState::CountDown => Frame { motion: Motion::Countdown(self.left_driver()), ..quiet },
            GameState::Playing => {
                if keys.escape {
                    Frame { game: self.in_state(GameState::Pause { selected: 0 }), ..quiet }
                } else {
                    Frame { motion: Motion::Rally(self.left_driver()), ..quiet }
                }
            },
            GameState::Pause { selected } => {
                let s = pause_selection(selected, keys);
                let g = self.in_state(GameState::Pause { selected: s });
                let chosen = if keys.enter && s == 0 {
                    Frame {
                        game: g.with_new_match().in_state(GameState::Menu { selected: 0 }),
                        reset: true,
                        ..quiet
                    }
                } else if keys.enter && s == 1 {
                    Frame { game: g.in_state(GameState::Playing), ..quiet }
                } else {
                    Frame { game: g, ..quiet }
                };
                if keys.escape {
                    Frame { game: chosen.game.in_state(GameState::Playing), ..chosen }
                } else {
                    chosen
                }
            },
            GameState::GameOver => {
                let restarted = if keys.r {
                    Frame {
                        game: self.with_new_match().in_state(GameState::CountDown),
                        reset: true,
                        start_countdown: true,
                        ..quiet
                    }
                } else {
                    quiet
                };
                if keys.escape {
                    Frame {
                        game: restarted.game.with_new_match().in_state(
                            GameState::Menu { selected: 0 },
                        ),
                        reset: true,
                        ..restarted
                    }
                } else {
                    restarted
                }
            },
        }
    }
}

fn menu_next(selected: usize, keys: KeyPresses) -> (s: usize)
    ensures
        s == menu_selection(selected, keys),
{
    let mut s = selected;
    if keys.down && s < MENU_LAST {
        s = s + 1;
    }
    if keys.up {
        s = if s > 0 {
            s - 1
        } else {
            0
        };
    }
    s
}

fn pause_next(selected: usize, keys: KeyPresses) -> (s: usize)
    requires
        selected <= 1,
    ensures
        s == pause_selection(selected, keys),
{
    let mut s = selected;
    if keys.up {
        s = (s + 1) % 2;
    }
    if keys.down {
        s = (s + 1) % 2;
    }
    s
}

impl Game {
    /// A game on the main menu, single-player at medium difficulty, with no
    /// points and nobody named the winner yet.
    pub fn new() -> (g: Game)
        ensures
            g.wf(),
            g.game_state == (GameState::Menu { selected: 0 }),
            g.game_mode == GameMode::SinglePlayer,
            g.difficulty == Difficulty::Medium,
            g.score == (Score { left: 0, right: 0 }),
            g.ball.speed_level == BASE_SPEED_LEVEL,
            g.winner@ == Seq::<char>::empty(),
    {
        Game {
            ball: Ball::new(),
            score: Score::default(),
            game_state: GameState::Menu { selected: 0 },
            game_mode: GameMode::SinglePlayer,
            difficulty: Difficulty::Medium,
            winner: String::new(),
        }
    }

    /// Sets up a new match and returns the side of its first serve.
    fn reset_match(&mut self) -> (side: Point)
        ensures
            *final(self) == old(self).with_new_match(),
    {
        self.score = Score::default();
        self.ball.reset_game()
    }

    /// Who drives the left paddle in this game.
    pub fn left_paddle(&self) -> (d: LeftPaddle)
        ensures
            d == self.left_driver(),
    {
        match self.game_mode {
            GameMode::SinglePlayer => LeftPaddle::Ai(self.difficulty),
            GameMode::TwoPlayer => LeftPaddle::Keys,
        }
    }

    /// Runs the rules for one frame with the keys pressed in it, and tells the
    /// caller what to do: quit, set up the field for a new match, restart the
    /// count-down clock, or simulate the paddles (and, in a rally, the ball).
    pub fn update(&mut self, keys: KeyPresses) -> (fx: FrameEffects)
        requires
            old(self).wf(),
        ensures
            final(self).wf(),
            *final(self) == old(self).frame(keys).game,
            fx.exit == old(self).frame(keys).exit,
            fx.reset is Some <==> old(self).frame(keys).reset,
            fx.start_countdown == old(self).frame(keys).start_countdown,
            fx.motion == old(self).frame(keys).motion,
    {
        let mut fx = FrameEffects {
            exit: false,
            reset: None,
            start_countdown: false,
            motion: Motion::Still,
        };
        match self.game_state {
            GameState::Menu { selected } => {
                let s = menu_next(selected, keys);
                self.game_state = GameState::Menu { selected: s };
                if keys.enter {
                    if s == 0 {
                        fx.reset = Some(self.reset_match());
                        self.game_mode = GameMode::SinglePlayer;
                        self.game_state = GameState::DifficultyMenu { selected: 0 };
                    } else if s == 1 {
                        fx.reset = Some(self.reset_match());
                        self.game_mode = GameMode::TwoPlayer;
                        self.game_state = GameState::CountDown;
                        fx.start_countdown = true;
                    } else if s == 2 {
                        self.game_state = GameState::Controls;
                    } else if s == 3 {
                        fx.exit = true;
                    } else {
                        self.game_state = GameState::Menu { selected: 0 };
                    }
                }
            },
            GameState::DifficultyMenu { selected } => {
                let s = menu_next(selected, keys);
                self.game_state = GameState::DifficultyMenu { selected: s };
                if keys.enter {
                    if s == 3 {
                        self.game_state = GameState::Menu { selected: 0 };
                        return fx;
                    }
                    if s == 0 {
                        self.difficulty = Difficulty::Easy;
                    } else if s == 1 {
                        self.difficulty = Difficulty::Medium;
                    } else if s == 2 {
                        self.difficulty = Difficulty::Hard;
                    }
                    fx.reset = Some(self.reset_match());
                    self.game_state = GameState::CountDown;
                    fx.start_countdown = true;
                }
                if keys.escape {
                    self.game_state = GameState::Menu { selected: 0 };
                }
            },
            GameState::Controls => {
                if keys.escape {
                    self.game_state = GameState::Menu { selected: 0 };
                }
            },
            GameState::CountDown => {
                fx.motion = Motion::Countdown(self.left_paddle());
            },
            GameState::Playing => {
                if keys.escape {
                    self.game_state = GameState::Pause { selected: 0 };
                    return fx;
                }
                fx.motion = Motion::Rally(self.left_paddle());
            },
            GameState::Pause { selected } => {
                let s = pause_next(selected, keys);
                self.game_state = GameState::Pause { selected: s };
                if keys.enter {
                    if s == 0 {
                        fx.reset = Some(self.reset_match());
                        self.game_state = GameState::Menu { selected: 0 };
                    } else if s == 1 {
                        self.game_state = GameState::Playing;
                    }
                }
                if keys.escape {
                    self.game_state = GameState::Playing;
                }
            },
            GameState::GameOver => {
                if keys.r {
                    fx.reset = Some(self.reset_match());
                    self.game_state = GameState::CountDown;
                    fx.start_countdown = true;
                }
                if keys.escape {
                    fx.reset = Some(self.reset_match());
                    self.game_state = GameState::Menu { selected: 0 };
                }
            },
        }
        fx
    }
}

impl Game {
    /// Ends the count-down when the caller's clock has run out (`elapsed`):
    /// play starts.  Outside a count-down nothing changes.
    pub fn countdown_tick(&mut self, elapsed: bool)
        requires
            old(self).wf(),
        ensures
            final(self).wf(),
            *final(self) == (if old(self).game_state == GameState::CountDown && elapsed {
                old(self).in_state(GameState::Playing)
            } else {
                *old(self)
            }),
    {
        if let GameState::CountDown = self.game_state {
            if elapsed {
                self.game_state = GameState::Playing;
            }
        }
    }

    /// Settles a frame of a rally, given whether the ball has left the field
    /// on the left side (`left_exit`) or on the right side (`right_exit`).
    /// A player who reaches the winning score ends the match; otherwise the
    /// paddle of the player who conceded shrinks, the ball gets faster, is
    /// served towards the scorer, and a count-down starts.  Outside a rally
    /// nothing changes.
    pub fn resolve_point(&mut self, left_exit: bool, right_exit: bool) -> (fx: PointEffects)
        requires
            old(self).wf(),
        ensures
            final(self).wf(),
            ({
                let point = Score::point_of(left_exit, right_exit);
                let score = old(self).score.after(point);
                if old(self).game_state != GameState::Playing || point is None {
                    &&& *final(self) == *old(self)
                    &&& fx == PointEffects {
                        shrink_left: false,
                        shrink_right: false,
                        serve: None,
                        start_countdown: false,
                    }
                } else if score.left >= WIN_SCORE || score.right >= WIN_SCORE {
                    &&& final(self).score == score
                    &&& final(self).game_state == GameState::GameOver
                    &&& final(self).winner@ == (if score.left >= WIN_SCORE {
                        left_wins_text()
                    } else {
                        right_wins_text()
                    })
                    &&& final(self).ball == old(self).ball
                    &&& final(self).game_mode == old(self).game_mode
                    &&& final(self).difficulty == old(self).difficulty
                    &&& fx == PointEffects {
                        shrink_left: false,
                        shrink_right: false,
                        serve: None,
                        start_countdown: false,
                    }
                } else {
                    &&& *final(self) == Game {
                        score,
                        ball: Ball { speed_level: Ball::raised(old(self).ball.speed_level) },
                        ..old(self).in_state(GameState::CountDown)
                    }
                    &&& fx == PointEffects {
                        shrink_left: point == Some(Point::Right),
                        shrink_right: point == Some(Point::Left),
                        serve: point,
                        start_countdown: true,
                    }
                }
            }),
    {
        let mut fx = PointEffects {
            shrink_left: false,
            shrink_right: false,
            serve: None,
            start_countdown: false,
        };
        if self.game_state != GameState::Playing {
            return fx;
        }
        if let Some(point) = self.score.update(left_exit, right_exit) {
            if self.score.left >= WIN_SCORE {
                self.winner = "Left player wins!".to_owned();
                self.game_state = GameState::GameOver;
                return fx;
            }
            if self.score.right >= WIN_SCORE {
                self.winner = "Right player wins!".to_owned();
                self.game_state = GameState::GameOver;
                return fx;
            }
            match point {
                Point::Right => {
                    fx.shrink_left = true;
                },
                Point::Left => {
                    fx.shrink_right = true;
                },
            }
            self.ball.increase_speed();
            fx.serve = Some(point);
            self.game_state = GameState::CountDown;
            fx.start_countdown = true;
        }
        fx
    }
}

} // verus!
