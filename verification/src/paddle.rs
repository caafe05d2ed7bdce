//! Axis-aligned paddle: a rectangle with a fixed per-tick vertical step.
//! The bounding box is always derived from the current position and the
//! dimensions; it is never stored separately, so it can never go stale.
use vstd::prelude::*;

verus! {

/// The four edges of a paddle's rectangle, as screen coordinates.
#[derive(Clone, Copy, Debug, PartialEq, Eq, Structural)]
pub struct PaddleBounds {
    pub top: i32,
    pub bottom: i32,
    pub left: i32,
    pub right: i32,
}

/// Discrete movement tiers; each maps to a fixed per-tick pixel delta.
#[derive(Clone, Copy, Debug, PartialEq, Eq, Structural)]
pub enum PaddleMovementSpeed {
    Slow,
    Normal,
    Fast,
    VeryFast,
}

impl PaddleMovementSpeed {
    /// The per-tick pixel delta of this tier.
    pub open spec fn step_spec(self) -> int {
        match self {
            PaddleMovementSpeed::Slow => 2,
            PaddleMovementSpeed::Normal => 4,
            PaddleMovementSpeed::Fast => 6,
            PaddleMovementSpeed::VeryFast => 8,
        }
    }

    pub fn step_size(&self) -> (r: i32)
        ensures
            r as int == self.step_spec(),
    {
        match self {
            PaddleMovementSpeed::Slow => 2,
            PaddleMovementSpeed::Normal => 4,
            PaddleMovementSpeed::Fast => 6,
            PaddleMovementSpeed::VeryFast => 8,
        }
    }
}

/// A paddle: top-left corner at `(x, y)`, `thickness` wide, `height` tall,
/// moving vertically by `speed.step_spec()` pixels per move.
#[derive(Clone, Copy, Debug, PartialEq, Eq, Structural)]
pub struct Paddle {
    pub x: i32,
    pub y: i32,
    pub thickness: u32,
    pub height: u32,
    pub speed: PaddleMovementSpeed,
}

impl Paddle {
    /// Sane dimensions: both extents positive and small enough that edge
    /// arithmetic stays far from the machine limits.
    pub open spec fn wf(self) -> bool {
        &&& 1 <= self.thickness <= 10_000
        &&& 1 <= self.height <= 10_000
    }

    pub open spec fn top_spec(self) -> int {
        self.y as int
    }

    pub open spec fn bottom_spec(self) -> int {
        self.y + self.height
    }

    pub open spec fn left_spec(self) -> int {
        self.x as int
    }

    pub open spec fn right_spec(self) -> int {
        self.x + self.thickness
    }

    /// The paddle after one step upwards.
    pub open spec fn moved_up(self) -> Paddle {
        Paddle { y: (self.y - self.speed.step_spec()) as i32, ..self }
    }

    /// The paddle after one step downwards.
    pub open spec fn moved_down(self) -> Paddle {
        Paddle { y: (self.y + self.speed.step_spec()) as i32, ..self }
    }

    /// Whether the probe point `(x, y)` counts as touching this paddle.
    /// The player's paddle is approached from the right, so the probe only
    /// has to be left of or at its far (right) edge; the opponent's paddle
    /// is approached from the left, so the probe has to be strictly right
    /// of its near (left) edge. Vertically the probe must be strictly
    /// inside either way.
    pub open spec fn contains_spec(self, x: int, y: int, is_player: bool) -> bool {
        if is_player {
            x <= self.right_spec() && y > self.top_spec() && y < self.bottom_spec()
        } else {
            x > self.left_spec() && y > self.top_spec() && y < self.bottom_spec()
        }
    }

    pub fn new(x: i32, y: i32, thickness: u32, height: u32, speed: PaddleMovementSpeed) -> (r:
        Paddle)
        requires
            1 <= thickness <= 10_000,
            1 <= height <= 10_000,
        ensures
            r == (Paddle { x, y, thickness, height, speed }),
            r.wf(),
    {
        Paddle { x, y, thickness, height, speed }
    }

    /// The current bounding box, derived from position and dimensions.
    pub fn get_bounds(&self) -> (r: PaddleBounds)
        requires
            self.wf(),
            self.y + self.height <= i32::MAX,
            self.x + self.thickness <= i32::MAX,
        ensures
            r.top as int == self.top_spec(),
            r.bottom as int == self.bottom_spec(),
            r.left as int == self.left_spec(),
            r.right as int == self.right_spec(),
    {
        PaddleBounds {
            top: self.y,
            bottom: self.y + self.height as i32,
            left: self.x,
            right: self.x + self.thickness as i32,
        }
    }

    /// Moves the paddle one step up.
    pub fn move_up(&mut self)
        requires
            i32::MIN + 8 <= old(self).y,
        ensures
            *final(self) == old(self).moved_up(),
            final(self).y as int == old(self).y - old(self).speed.step_spec(),
    {
        let step = self.speed.step_size();
        self.y = self.y - step;
    }

    /// Moves the paddle one step down.
    pub fn move_down(&mut self)
        requires
            old(self).y <= i32::MAX - 8,
        ensures
            *final(self) == old(self).moved_down(),
            final(self).y as int == old(self).y + old(self).speed.step_spec(),
    {
        let step = self.speed.step_size();
        self.y = self.y + step;
    }

    /// Tests whether the probe point `(x, y)` touches the paddle; the
    /// `is_player` flag selects which horizontal edge counts, since the two
    /// paddles are approached from opposite sides.
    pub fn contains(&self, x: i32, y: i32, is_player: bool) -> (r: bool)
        requires
            self.wf(),
            self.y + self.height <= i32::MAX,
            self.x + self.thickness <= i32::MAX,
        ensures
            r == self.contains_spec(x as int, y as int, is_player),
    {
        if is_player {
            x <= self.x + self.thickness as i32 && y > self.y && y < self.y + self.height as i32
        } else {
            x > self.x && y > self.y && y < self.y + self.height as i32
        }
    }
}

/// Step-by-step construction of a `Paddle`; `build` demands that every field
/// has been supplied, so no partially configured paddle is ever produced.
pub struct PaddleBuilder {
    pub x: Option<i32>,
    pub y: Option<i32>,
    pub thickness: Option<u32>,
    pub height: Option<u32>,
    pub speed: Option<PaddleMovementSpeed>,
}

impl PaddleBuilder {
    pub fn new() -> (r: PaddleBuilder)
        ensures
            r.x is None,
            r.y is None,
            r.thickness is None,
            r.height is None,
            r.speed is None,
    {
        PaddleBuilder { x: None, y: None, thickness: None, height: None, speed: None }
    }

    /// Sets the stock paddle dimensions: 10 wide, 40 tall.
    pub fn set_default_dimensions(self) -> (r: PaddleBuilder)
        ensures
            r == (PaddleBuilder { thickness: Some(10u32), height: Some(40u32), ..self }),
    {
        PaddleBuilder { thickness: Some(10), height: Some(40), ..self }
    }

    pub fn set_thickness(self, thickness: u32) -> (r: PaddleBuilder)
        ensures
            r == (PaddleBuilder { thickness: Some(thickness), ..self }),
    {
        PaddleBuilder { thickness: Some(thickness), ..self }
    }

    pub fn set_height(self, height: u32) -> (r: PaddleBuilder)
        ensures
            r == (PaddleBuilder { height: Some(height), ..self }),
    {
        PaddleBuilder { height: Some(height), ..self }
    }

    pub fn set_x(self, x: i32) -> (r: PaddleBuilder)
        ensures
            r == (PaddleBuilder { x: Some(x), ..self }),
    {
        PaddleBuilder { x: Some(x), ..self }
    }

    pub fn set_y(self, y: i32) -> (r: PaddleBuilder)
        ensures
            r == (PaddleBuilder { y: Some(y), ..self }),
    {
        PaddleBuilder { y: Some(y), ..self }
    }

    pub fn set_speed(self, speed: PaddleMovementSpeed) -> (r: PaddleBuilder)
        ensures
            r == (PaddleBuilder { speed: Some(speed), ..self }),
    {
        PaddleBuilder { speed: Some(speed), ..self }
    }

    /// Produces the paddle. Building with any field unset, or with degenerate
    /// dimensions, is a configuration error and is ruled out up front.
    pub fn build(self) -> (r: Paddle)
        requires
            self.x is Some,
            self.y is Some,
            self.thickness is Some,
            self.height is Some,
            self.speed is Some,
            1 <= self.thickness->0 <= 10_000,
            1 <= self.height->0 <= 10_000,
        ensures
            r == (Paddle {
                x: self.x->0,
                y: self.y->0,
                thickness: self.thickness->0,
                height: self.height->0,
                speed: self.speed->0,
            }),
            r.wf(),
    {
        Paddle::new(
            self.x.unwrap(),
            self.y.unwrap(),
            self.thickness.unwrap(),
            self.height.unwrap(),
            self.speed.unwrap(),
        )
    }
}

} // verus!
