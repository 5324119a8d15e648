use vstd::prelude::*;

use crate::game::Point;

verus! {

/// Points of the left and of the right player.
#[derive(Clone, Copy, Debug, PartialEq, Eq, Structural)]
pub struct Score {
    pub left: u32,
    pub right: u32,
}

impl Default for Score {
    fn default() -> (s: Score)
        ensures
            s.left == 0,
            s.right == 0,
    {
        Score { left: 0, right: 0 }
    }
}

impl Score {
    /// The point scored in a frame: the ball leaving on the left side is a
    /// point for the right player; otherwise leaving on the right side is a
    /// point for the left player.
    pub open spec fn point_of(left_exit: bool, right_exit: bool) -> Option<Point> {
        if left_exit {
            Some(Point::Right)
        } else if right_exit {
            Some(Point::Left)
        } else {
            None
        }
    }

    /// The score after `point` was awarded.
    pub open spec fn after(self, point: Option<Point>) -> Score {
        match point {
            Some(Point::Right) => Score { right: (self.right + 1) as u32, ..self },
            Some(Point::Left) => Score { left: (self.left + 1) as u32, ..self },
            None => self,
        }
    }

    /// Awards the point of a frame, given whether the ball has left the field
    /// on the left side (`left_exit`) or on the right side (`right_exit`).
    pub fn update(&mut self, left_exit: bool, right_exit: bool) -> (point: Option<Point>)
        requires
            left_exit ==> old(self).right < u32::MAX,
            !left_exit && right_exit ==> old(self).left < u32::MAX,
        ensures
            point == Score::point_of(left_exit, right_exit),
            *final(self) == old(self).after(point),
            left_exit ==> point == Some(Point::Right) && final(self).right == old(self).right + 1
                && final(self).left == old(self).left,
            !left_exit && right_exit ==> point == Some(Point::Left) && final(self).left
                == old(self).left + 1 && final(self).right == old(self).right,
            !left_exit && !right_exit ==> point is None && *final(self) == *old(self),
    {
        if left_exit {
            self.right += 1;
            Some(Point::Right)
        } else if right_exit {
            self.left += 1;
            Some(Point::Left)
        } else {
            None
        }
    }
}

} // verus!
