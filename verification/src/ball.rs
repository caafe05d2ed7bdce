//! The ball: a circle with a direction vector and a speed-escalation
//! counter. Its bounding box is always derived from the current center and
//! radius. Horizontal bounces count toward speed escalation: every third
//! horizontal flip raises the horizontal speed magnitude by one, and the
//! magnitude never decreases until the ball is replaced.
use crate::rng::sample_direction_code;
use vstd::prelude::*;

verus! {

/// Upper bound on the speed-escalation counter accepted by the physics; it
/// keeps every derived speed and position comfortably inside `i32`.
pub const MAX_SPEED_COUNTER: u32 = 900_000_000;

/// The four edges of the ball's bounding box, as screen coordinates.
#[derive(Clone, Copy, Debug, PartialEq, Eq, Structural)]
pub struct BallBounds {
    pub top: i32,
    pub bottom: i32,
    pub left: i32,
    pub right: i32,
}

/// The two axes a bounce can flip the direction vector on.
#[derive(Clone, Copy, Debug, PartialEq, Eq, Structural)]
pub enum BallAxes {
    Vertical,
    Horizontal,
}

/// A ball: center `(x, y)`, `radius`, direction vector `(dir_x, dir_y)`
/// whose component signs give the travel direction and magnitudes the
/// current speed, plus the horizontal-flip counter and the base speed the
/// ball was created with.
#[derive(Clone, Copy, Debug, PartialEq, Eq, Structural)]
pub struct Ball {
    pub x: i32,
    pub y: i32,
    pub radius: u32,
    pub dir_x: i32,
    pub dir_y: i32,
    pub speed_counter: u32,
    pub base_speed: u32,
}

impl Ball {
    /// The current horizontal speed magnitude: the base speed plus one for
    /// every third horizontal flip since the ball was created.
    pub open spec fn speed_magnitude(self) -> int {
        self.base_speed + self.speed_counter as int / 3
    }

    /// Well-formedness: modest radius and base speed, a bounded flip
    /// counter, and a direction vector whose vertical magnitude is the base
    /// speed and whose horizontal magnitude is the escalated speed.
    pub open spec fn wf(self) -> bool {
        &&& 1 <= self.radius <= 1000
        &&& 1 <= self.base_speed <= 1000
        &&& self.speed_counter <= MAX_SPEED_COUNTER
        &&& (self.dir_y == self.base_speed || self.dir_y == -(self.base_speed as int))
        &&& (self.dir_x == self.speed_magnitude() || self.dir_x == -self.speed_magnitude())
    }

    pub open spec fn top_spec(self) -> int {
        self.y - self.radius
    }

    pub open spec fn bottom_spec(self) -> int {
        self.y + self.radius
    }

    pub open spec fn left_spec(self) -> int {
        self.x - self.radius
    }

    pub open spec fn right_spec(self) -> int {
        self.x + self.radius
    }

    /// The ball after a vertical bounce: only the vertical direction flips.
    pub open spec fn vflipped(self) -> Ball {
        Ball { dir_y: (-(self.dir_y as int)) as i32, ..self }
    }

    /// The ball after a horizontal bounce: the counter advances, the
    /// horizontal direction flips, and on every third flip the horizontal
    /// magnitude grows by one, keeping the new sign.
    pub open spec fn hflipped(self) -> Ball {
        let counter = self.speed_counter + 1;
        let turned = -(self.dir_x as int);
        let dx = if counter % 3 == 0 {
            if turned > 0 {
                turned + 1
            } else {
                turned - 1
            }
        } else {
            turned
        };
        Ball { speed_counter: counter as u32, dir_x: dx as i32, ..self }
    }

    /// The ball after advancing one step along its direction vector.
    pub open spec fn advanced(self) -> Ball {
        Ball { x: (self.x + self.dir_x) as i32, y: (self.y + self.dir_y) as i32, ..self }
    }

    /// Creates a ball at center `(x, y)` with the given radius and base
    /// speed, a zeroed flip counter, and a freshly sampled diagonal
    /// direction: each component is either `movement_magnitude` or its
    /// negation, with all four diagonals equally likely.
    pub fn new(
        x: i32,
        y: i32,
        radius: u32,
        movement_magnitude: u32,
        rng: &mut rand_chacha::ChaCha20Rng,
    ) -> (r: Ball)
        requires
            1 <= radius <= 1000,
            1 <= movement_magnitude <= 1000,
        ensures
            r.x == x,
            r.y == y,
            r.radius == radius,
            r.base_speed == movement_magnitude,
            r.speed_counter == 0,
            r.dir_x == movement_magnitude || r.dir_x == -(movement_magnitude as int),
            r.dir_y == movement_magnitude || r.dir_y == -(movement_magnitude as int),
            r.wf(),
    {
        let (dir_x, dir_y) = Self::gen_direction(movement_magnitude, rng);
        Ball { x, y, radius, dir_x, dir_y, speed_counter: 0, base_speed: movement_magnitude }
    }

    /// The fixed table from a drawn code to a diagonal direction at the
    /// given magnitude: the four codes map to the four diagonals, one each.
    fn diagonal_of_code(code: u32, magnitude: u32) -> (r: (i32, i32))
        requires
            code <= 3,
            1 <= magnitude <= 1000,
        ensures
            code == 0 ==> r.0 == -(magnitude as int) && r.1 == -(magnitude as int),
            code == 1 ==> r.0 == -(magnitude as int) && r.1 == magnitude,
            code == 2 ==> r.0 == magnitude && r.1 == -(magnitude as int),
            code == 3 ==> r.0 == magnitude && r.1 == magnitude,
    {
        let m = magnitude as i32;
        match code {
            0u32 => (-m, -m),
            1u32 => (-m, m),
            2u32 => (m, -m),
            _ => (m, m),
        }
    }

    /// Draws one of the four diagonal directions at the given magnitude,
    /// each with equal probability.
    fn gen_direction(magnitude: u32, rng: &mut rand_chacha::ChaCha20Rng) -> (r: (i32, i32))
        requires
            1 <= magnitude <= 1000,
        ensures
            r.0 == magnitude || r.0 == -(magnitude as int),
            r.1 == magnitude || r.1 == -(magnitude as int),
    {
        let code = sample_direction_code(rng);
        Self::diagonal_of_code(code, magnitude)
    }

    /// The current direction vector as `(horizontal, vertical)`.
    pub fn get_direction(&self) -> (r: (i32, i32))
        ensures
            r.0 == self.dir_x,
            r.1 == self.dir_y,
    {
        (self.dir_x, self.dir_y)
    }

    /// Translates the center by `(dx, dy)`.
    pub fn move_ball(&mut self, dx: i32, dy: i32)
        requires
            i32::MIN <= old(self).x + dx <= i32::MAX,
            i32::MIN <= old(self).y + dy <= i32::MAX,
        ensures
            final(self).x as int == old(self).x + dx,
            final(self).y as int == old(self).y + dy,
            *final(self) == (Ball {
                x: (old(self).x + dx) as i32,
                y: (old(self).y + dy) as i32,
                ..*old(self)
            }),
    {
        self.x = self.x + dx;
        self.y = self.y + dy;
    }

    /// Advances the ball one step along its current direction vector.
    pub fn step_direction(&mut self)
        requires
            i32::MIN <= old(self).x + old(self).dir_x <= i32::MAX,
            i32::MIN <= old(self).y + old(self).dir_y <= i32::MAX,
        ensures
            *final(self) == old(self).advanced(),
    {
        let dx = self.dir_x;
        let dy = self.dir_y;
        self.move_ball(dx, dy);
    }

    /// Flips the direction of travel along the given axis. A horizontal
    /// flip also counts toward speed escalation: every third one raises the
    /// horizontal magnitude by one, keeping the flipped sign; a vertical
    /// flip has no side effect on speed.
    pub fn flip_direction(&mut self, axes: BallAxes)
        requires
            axes is Vertical ==> old(self).dir_y != i32::MIN,
            axes is Horizontal ==> {
                &&& old(self).speed_counter < u32::MAX
                &&& i32::MIN + 2 <= old(self).dir_x <= i32::MAX - 1
            },
        ensures
            axes is Vertical ==> *final(self) == old(self).vflipped(),
            axes is Horizontal ==> *final(self) == old(self).hflipped(),
            axes is Horizontal && old(self).wf() && old(self).speed_counter < MAX_SPEED_COUNTER
                ==> final(self).wf(),
            axes is Vertical && old(self).wf() ==> final(self).wf(),
    {
        match axes {
            BallAxes::Horizontal => {
                self.speed_counter = self.speed_counter + 1;
                self.dir_x = -self.dir_x;
                if self.speed_counter % 3 == 0 {
                    if self.dir_x > 0 {
                        self.dir_x = self.dir_x + 1;
                    } else {
                        self.dir_x = self.dir_x - 1;
                    }
                }
                proof {
                    lemma_escalation_step(old(self).base_speed as int,
                        old(self).speed_counter as int);
                }
            },
            BallAxes::Vertical => {
                self.dir_y = -self.dir_y;
            },
        }
    }

    /// The current bounding box, derived from the center and the radius:
    /// top is `y - r`, bottom `y + r`, left `x - r`, right `x + r`.
    pub fn get_bounds(&self) -> (r: BallBounds)
        requires
            self.radius <= 1000,
            i32::MIN + 1000 <= self.x <= i32::MAX - 1000,
            i32::MIN + 1000 <= self.y <= i32::MAX - 1000,
        ensures
            r.top as int == self.top_spec(),
            r.bottom as int == self.bottom_spec(),
            r.left as int == self.left_spec(),
            r.right as int == self.right_spec(),
    {
        let r = self.radius as i32;
        BallBounds {
            top: self.y - r,
            bottom: self.y + r,
            left: self.x - r,
            right: self.x + r,
        }
    }
}

/// How integer division by three behaves across an increment: the quotient
/// grows exactly when the incremented counter is a multiple of three.
proof fn lemma_escalation_step(base: int, counter: int)
    requires
        counter >= 0,
    ensures
        (counter + 1) % 3 == 0 ==> base + (counter + 1) / 3 == base + counter / 3 + 1,
        (counter + 1) % 3 != 0 ==> base + (counter + 1) / 3 == base + counter / 3,
{
    assert((counter + 1) % 3 == 0 ==> (counter + 1) / 3 == counter / 3 + 1) by (nonlinear_arith);
    assert((counter + 1) % 3 != 0 ==> (counter + 1) / 3 == counter / 3) by (nonlinear_arith);
}

/// Law: starting from a fresh ball, three cumulative horizontal flips raise
/// the horizontal speed magnitude to exactly one above the base speed, and
/// six raise it to two above — each time the direction component is that
/// magnitude with one sign or the other, so the escalation preserves the
/// sign the flip produced.
pub proof fn lemma_three_flips_escalate(b: Ball)
    requires
        b.wf(),
        b.speed_counter == 0,
    ensures
        ({
            let b3 = b.hflipped().hflipped().hflipped();
            &&& b3.speed_magnitude() == b.base_speed + 1
            &&& (b3.dir_x == b3.speed_magnitude() || b3.dir_x == -b3.speed_magnitude())
        }),
        ({
            let b6 = b.hflipped().hflipped().hflipped().hflipped().hflipped().hflipped();
            &&& b6.speed_magnitude() == b.base_speed + 2
            &&& (b6.dir_x == b6.speed_magnitude() || b6.dir_x == -b6.speed_magnitude())
        }),
{
}

/// Law: for a well-formed ball the horizontal speed magnitude is exactly the
/// base speed plus one for every third horizontal flip — so it is `base + 1`
/// after three flips and `base + 2` after six — and within a rally it never
/// decreases: a horizontal flip keeps or raises it, while vertical flips and
/// plain advances leave it unchanged.
pub proof fn lemma_speed_escalation(b: Ball)
    requires
        b.wf(),
    ensures
        b.dir_x == b.base_speed + b.speed_counter as int / 3 || b.dir_x == -(b.base_speed
            + b.speed_counter as int / 3),
        b.speed_counter == 3 ==> (b.dir_x == b.base_speed + 1 || b.dir_x == -(b.base_speed
            as int + 1)),
        b.speed_counter == 6 ==> (b.dir_x == b.base_speed + 2 || b.dir_x == -(b.base_speed
            as int + 2)),
        b.speed_counter < MAX_SPEED_COUNTER ==> b.hflipped().speed_magnitude()
            >= b.speed_magnitude(),
        b.vflipped().speed_magnitude() == b.speed_magnitude(),
        b.advanced().speed_magnitude() == b.speed_magnitude(),
{
    lemma_escalation_step(b.base_speed as int, b.speed_counter as int);
}

} // verus!
