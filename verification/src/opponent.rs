//! The opponent: a paddle, a difficulty tier, and a purely reactive
//! heuristic. The tier fixes both the paddle's speed and the detection
//! threshold — the horizontal coordinate the ball's right edge must reach
//! before the opponent reacts at all. Inside the zone it makes at most one
//! correction per frame: up if the ball's top is above the paddle, else
//! down if the ball's bottom is below it, else it holds.
use crate::ball::BallBounds;
use crate::paddle::{Paddle, PaddleBuilder, PaddleMovementSpeed};
use crate::SCREEN_HEIGHT;
use crate::SCREEN_WIDTH;
use vstd::prelude::*;

verus! {

/// Detection threshold of the easiest tier: two thirds of the screen width,
/// so reaction starts once the ball is in the last third of the screen.
pub const DETECTION_X_BASE: i32 = 320;

/// The five difficulty tiers, easiest first.
#[derive(Clone, Copy, Debug, PartialEq, Eq, Structural)]
pub enum OpponentDifficulty {
    VeryEasy,
    Easy,
    Normal,
    Hard,
    VeryHard,
}

impl OpponentDifficulty {
    /// The tier's rank, 0 for the easiest through 4 for the hardest.
    pub open spec fn tier_spec(self) -> int {
        match self {
            OpponentDifficulty::VeryEasy => 0,
            OpponentDifficulty::Easy => 1,
            OpponentDifficulty::Normal => 2,
            OpponentDifficulty::Hard => 3,
            OpponentDifficulty::VeryHard => 4,
        }
    }

    pub fn tier(&self) -> (r: i32)
        ensures
            r as int == self.tier_spec(),
    {
        match self {
            OpponentDifficulty::VeryEasy => 0,
            OpponentDifficulty::Easy => 1,
            OpponentDifficulty::Normal => 2,
            OpponentDifficulty::Hard => 3,
            OpponentDifficulty::VeryHard => 4,
        }
    }

    /// The paddle speed tier this difficulty plays at, rising with the tier.
    pub open spec fn paddle_speed_spec(self) -> PaddleMovementSpeed {
        match self {
            OpponentDifficulty::VeryEasy => PaddleMovementSpeed::Slow,
            OpponentDifficulty::Easy => PaddleMovementSpeed::Normal,
            OpponentDifficulty::Normal => PaddleMovementSpeed::Normal,
            OpponentDifficulty::Hard => PaddleMovementSpeed::Fast,
            OpponentDifficulty::VeryHard => PaddleMovementSpeed::VeryFast,
        }
    }

    fn paddle_speed(&self) -> (r: PaddleMovementSpeed)
        ensures
            r == self.paddle_speed_spec(),
    {
        match self {
            OpponentDifficulty::VeryEasy => PaddleMovementSpeed::Slow,
            OpponentDifficulty::Easy => PaddleMovementSpeed::Normal,
            OpponentDifficulty::Normal => PaddleMovementSpeed::Normal,
            OpponentDifficulty::Hard => PaddleMovementSpeed::Fast,
            OpponentDifficulty::VeryHard => PaddleMovementSpeed::VeryFast,
        }
    }
}

/// The opponent player: its paddle, its difficulty tier, and the detection
/// threshold derived from the tier at construction.
pub struct Opponent {
    pub paddle: Paddle,
    pub difficulty: OpponentDifficulty,
    pub detection_x: i32,
}

impl Opponent {
    /// The opponent after one reactive step against a ball whose bounding
    /// box edges are `(ball_right, ball_top, ball_bottom)`.
    pub open spec fn stepped(self, ball_right: int, ball_top: int, ball_bottom: int) -> Opponent {
        if ball_right >= self.detection_x {
            if ball_top < self.paddle.top_spec() {
                Opponent { paddle: self.paddle.moved_up(), ..self }
            } else if ball_bottom > self.paddle.bottom_spec() {
                Opponent { paddle: self.paddle.moved_down(), ..self }
            } else {
                self
            }
        } else {
            self
        }
    }

    /// Creates an opponent of the given difficulty: a stock paddle near the
    /// right edge at mid-height, at the tier's speed, with the detection
    /// threshold shrunk by 25 pixels per tier rank.
    pub fn new(difficulty: OpponentDifficulty) -> (r: Opponent)
        ensures
            r.paddle == (Paddle {
                x: (SCREEN_WIDTH - 15) as i32,
                y: (SCREEN_HEIGHT / 2) as i32,
                thickness: 10u32,
                height: 40u32,
                speed: difficulty.paddle_speed_spec(),
            }),
            r.difficulty == difficulty,
            r.detection_x == DETECTION_X_BASE - 25 * difficulty.tier_spec(),
            r.paddle.wf(),
    {
        let speed = difficulty.paddle_speed();
        let paddle = PaddleBuilder::new()
            .set_default_dimensions()
            .set_speed(speed)
            .set_x(SCREEN_WIDTH as i32 - 15)
            .set_y(SCREEN_HEIGHT as i32 / 2)
            .build();
        let detection_x = DETECTION_X_BASE - 25 * difficulty.tier();
        Opponent { paddle, difficulty, detection_x }
    }

    /// One reactive step: if the ball's right edge has reached the
    /// detection threshold, chase the ball with at most one correction;
    /// otherwise the paddle does not move at all.
    pub fn step_opponent(&mut self, ball: &BallBounds)
        requires
            old(self).paddle.wf(),
            i32::MIN + 8 <= old(self).paddle.y,
            old(self).paddle.y + old(self).paddle.height <= i32::MAX - 8,
        ensures
            *final(self) == old(self).stepped(ball.right as int, ball.top as int,
                ball.bottom as int),
            final(self).difficulty == old(self).difficulty,
            final(self).detection_x == old(self).detection_x,
            ball.right < old(self).detection_x ==> *final(self) == *old(self),
    {
        if ball.right >= self.detection_x {
            if ball.top < self.paddle.y {
                self.paddle.move_up();
            } else if ball.bottom > self.paddle.y + self.paddle.height as i32 {
                self.paddle.move_down();
            }
        }
    }

    /// Law: the opponent's paddle holds perfectly still on any frame where
    /// the ball's right edge has not reached the detection threshold,
    /// whatever the ball's vertical position.
    pub proof fn lemma_holds_outside_detection_zone(
        self,
        ball_right: int,
        ball_top: int,
        ball_bottom: int,
    )
        requires
            ball_right < self.detection_x,
        ensures
            self.stepped(ball_right, ball_top, ball_bottom) == self,
    {
    }

    /// Tests whether the probe point `(x, y)` touches the opponent's
    /// paddle, using the opponent-side containment rule.
    pub fn contains(&mut self, x: i32, y: i32) -> (r: bool)
        requires
            old(self).paddle.wf(),
            old(self).paddle.y + old(self).paddle.height <= i32::MAX,
            old(self).paddle.x + old(self).paddle.thickness <= i32::MAX,
        ensures
            *final(self) == *old(self),
            r == old(self).paddle.contains_spec(x as int, y as int, false),
    {
        self.paddle.contains(x, y, false)
    }
}

} // verus!
