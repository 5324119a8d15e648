use vstd::prelude::*;

use crate::game::Point;

verus! {

/// Speed level of a fresh serve: the ball moves at its initial speed.
/// Speed levels are counted in tenths of the initial speed.
pub const BASE_SPEED_LEVEL: u32 = 10;

/// Highest speed level: twice the initial speed.
pub const MAX_SPEED_LEVEL: u32 = 20;

/// The part of the ball that the rules decide: how fast it is served,
/// as a multiple (in tenths) of its initial speed.
#[derive(Clone, Copy, Debug, PartialEq, Eq, Structural)]
pub struct Ball {
    pub speed_level: u32,
}

/// `macroquad::rand::gen_range` on `i32`: a pseudo-random integer drawn from
/// the global generator.  Its source scales a `u32` draw `d` to
/// `low + (high - low) * d / 2^32` in `f64` and truncates; for small
/// non-negative bounds that lies in `low..high`, which is all this claims.
/// Which value comes back depends on the generator's hidden state.
#[verifier::external_body]
fn gen_range_i32(low: i32, high: i32) -> (r: i32)
    requires
        0 <= low < high <= 0x10000,
    ensures
        low <= r < high,
{
    macroquad::rand::gen_range::<i32>(low, high)
}

/// The side a new match is served to, given a coin `0` or `1`.
pub open spec fn side_of_coin(coin: i32) -> Point {
    if coin == 0 {
        Point::Left
    } else {
        Point::Right
    }
}

/// Picks the side a new match is served to from a coin: `0` serves to the
/// left player, anything else to the right player.
pub fn serve_side(coin: i32) -> (side: Point)
    ensures
        side == side_of_coin(coin),
{
    if coin == 0 {
        Point::Left
    } else {
        Point::Right
    }
}

impl Point {
    /// Horizontal direction of a serve after `self` was scored: towards the
    /// left (`-1`) after a point of the left player, towards the right (`1`)
    /// after a point of the right player.
    pub fn serve_direction(self) -> (dir: i8)
        ensures
            dir == (match self {
                Point::Left => -1i8,
                Point::Right => 1i8,
            }),
    {
        match self {
            Point::Left => -1,
            Point::Right => 1,
        }
    }
}

impl Ball {
    /// The speed level after one increase: one tenth more, capped at twice
    /// the initial speed.
    pub open spec fn raised(level: u32) -> u32 {
        if level + 1 <= MAX_SPEED_LEVEL {
            (level + 1) as u32
        } else {
            MAX_SPEED_LEVEL
        }
    }

    /// A ball served at its initial speed.
    pub fn new() -> (b: Ball)
        ensures
            b.speed_level == BASE_SPEED_LEVEL,
    {
        Ball { speed_level: BASE_SPEED_LEVEL }
    }

    /// Raises the speed level by a tenth of the initial speed, up to twice
    /// the initial speed.
    pub fn increase_speed(&mut self)
        ensures
            final(self).speed_level == Ball::raised(old(self).speed_level),
    {
        if self.speed_level < MAX_SPEED_LEVEL {
            self.speed_level = self.speed_level + 1;
        } else {
            self.speed_level = MAX_SPEED_LEVEL;
        }
    }

    /// Starts a new match: the speed level goes back to the initial speed and
    /// a coin picks the side of the first serve.  The side is returned; either
    /// side may come back.
    pub fn reset_game(&mut self) -> (side: Point)
        ensures
            final(self).speed_level == BASE_SPEED_LEVEL,
    {
        self.speed_level = BASE_SPEED_LEVEL;
        let coin = gen_range_i32(0, 2);
        serve_side(coin)
    }
}

} // verus!
