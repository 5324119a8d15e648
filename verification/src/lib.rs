//! Game rules of a two-paddle Pong: scoring, ball speed levels and the
//! menu / match state machine.  Drawing, input polling and the floating-point
//! motion of the ball and paddles are done by the caller, which reports the
//! outcome of each frame back to these functions.
use vstd::prelude::*;

pub mod ball;
pub mod constants;
pub mod game;
pub mod laws;
pub mod score;

verus! {

} // verus!
