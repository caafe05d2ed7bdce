//! The frame scheduler and top-level state machine. Each poll compares the
//! tick counter against the frame interval; when a frame is due it runs
//! exactly one simulation step — a menu step or a gameplay step, never both,
//! and never a catch-up loop. Gameplay resolves at most one collision or
//! scoring event per frame, in a fixed priority order, then advances the
//! ball, answers the player's input, and lets the opponent react. All
//! buttons are edge-detected through per-button latches that clear only
//! when the physical signal reads released.
use crate::ball::{Ball, BallAxes, MAX_SPEED_COUNTER};
use crate::menu::Menu;
use crate::opponent::{Opponent, OpponentDifficulty};
use crate::paddle::{Paddle, PaddleBuilder, PaddleMovementSpeed};
use crate::rng::rng_from_seed;
use crate::SCREEN_HEIGHT;
use crate::SCREEN_WIDTH;
use vstd::prelude::*;
use vstd::string::StringExecFns;

verus! {

/// Radius every fresh ball is created with.
pub const BALL_RADIUS: u32 = 10;

/// Base speed magnitude every fresh ball is created with.
pub const BALL_BASE_SPEED: u32 = 3;

/// Coordinate headroom demanded before a gameplay step; far beyond the
/// screen, but small enough that one frame of motion stays inside `i32`.
pub const COORD_LIMIT: i32 = 1_000_000_000;

/// One snapshot of the four buttons the game reads.
#[derive(Clone, Copy, Debug, PartialEq, Eq, Structural)]
pub struct ButtonSnapshot {
    pub up: bool,
    pub down: bool,
    pub start: bool,
    pub confirm: bool,
}

/// The two score counters.
#[derive(Clone, Copy, Debug, PartialEq, Eq, Structural)]
pub struct Score {
    pub player: u32,
    pub opponent: u32,
}

/// The single geometry or scoring event a gameplay step resolves, in the
/// fixed priority order the conditions are evaluated in.
#[derive(Clone, Copy, Debug, PartialEq, Eq, Structural)]
pub enum BallEvent {
    TopWall,
    BottomWall,
    PlayerPaddle,
    OpponentPaddle,
    OpponentScored,
    PlayerScored,
    NoContact,
}

/// The whole game state: both paddles, the ball, the score, the frame
/// interval and the last simulated tick, the main menu with its open flag,
/// the per-button edge latches, and the random source for ball respawns.
pub struct PongController {
    pub player: Paddle,
    pub opponent: Opponent,
    pub ball: Ball,
    pub score: Score,
    pub ticks_per_update: u32,
    pub last_tick: u64,
    pub main_menu: Menu,
    pub menu_open: bool,
    pub latch_up: bool,
    pub latch_down: bool,
    pub latch_confirm: bool,
    pub latch_start: bool,
    pub rng: rand_chacha::ChaCha20Rng,
}

impl PongController {
    /// Everything a simulation step needs to stay inside machine limits:
    /// well-formed entities, coordinates with one frame of headroom, a flip
    /// counter below its cap, scores below their cap, and the main menu
    /// holding exactly its three fixed items.
    pub open spec fn frame_safe(self) -> bool {
        &&& self.ball.wf()
        &&& -COORD_LIMIT <= self.ball.x <= COORD_LIMIT
        &&& -COORD_LIMIT <= self.ball.y <= COORD_LIMIT
        &&& self.ball.speed_counter < MAX_SPEED_COUNTER
        &&& self.player.wf()
        &&& -COORD_LIMIT <= self.player.x <= COORD_LIMIT
        &&& -COORD_LIMIT <= self.player.y <= COORD_LIMIT
        &&& self.opponent.paddle.wf()
        &&& -COORD_LIMIT <= self.opponent.paddle.x <= COORD_LIMIT
        &&& -COORD_LIMIT <= self.opponent.paddle.y <= COORD_LIMIT
        &&& self.score.player < u32::MAX
        &&& self.score.opponent < u32::MAX
        &&& self.main_menu.wf()
        &&& self.main_menu.items@.len() == 3
    }

    /// Which event the gameplay step resolves for this geometry: the first
    /// matching condition of the fixed priority order — top wall, bottom
    /// wall, player paddle, opponent paddle, left goal, right goal — and
    /// otherwise no contact at all.
    pub open spec fn contact_spec(ball: Ball, player: Paddle, opponent: Opponent) -> BallEvent {
        if ball.top_spec() <= 0 {
            BallEvent::TopWall
        } else if ball.bottom_spec() >= SCREEN_HEIGHT {
            BallEvent::BottomWall
        } else if player.contains_spec(ball.left_spec(), ball.bottom_spec(), true)
            || player.contains_spec(ball.left_spec(), ball.top_spec(), true) {
            BallEvent::PlayerPaddle
        } else if opponent.paddle.contains_spec(ball.right_spec(), ball.bottom_spec(), false)
            || opponent.paddle.contains_spec(ball.right_spec(), ball.top_spec(), false) {
            BallEvent::OpponentPaddle
        } else if ball.left_spec() <= 0 {
            BallEvent::OpponentScored
        } else if ball.right_spec() >= SCREEN_WIDTH {
            BallEvent::PlayerScored
        } else {
            BallEvent::NoContact
        }
    }

    /// A ball one step after a goal respawn: created at screen center with
    /// the base radius and base speed, a zeroed flip counter, each
    /// direction component either the base speed or its negation, and then
    /// advanced once along that direction.
    pub open spec fn respawned(ball: Ball) -> bool {
        &&& ball.radius == BALL_RADIUS
        &&& ball.base_speed == BALL_BASE_SPEED
        &&& ball.speed_counter == 0
        &&& (ball.dir_x == BALL_BASE_SPEED || ball.dir_x == -(BALL_BASE_SPEED as int))
        &&& (ball.dir_y == BALL_BASE_SPEED || ball.dir_y == -(BALL_BASE_SPEED as int))
        &&& ball.x == SCREEN_WIDTH / 2 + ball.dir_x
        &&& ball.y == SCREEN_HEIGHT / 2 + ball.dir_y
    }

    /// The player's paddle after answering held input: up while its top has
    /// not reached the top of the screen, else down while its bottom has
    /// not reached the bottom, else unmoved.
    pub open spec fn player_after_input(p: Paddle, input: ButtonSnapshot) -> Paddle {
        if input.up && p.top_spec() > 0 {
            p.moved_up()
        } else if input.down && p.bottom_spec() < SCREEN_HEIGHT {
            p.moved_down()
        } else {
            p
        }
    }

    /// The gameplay-step transition, latches and tick fields aside: one
    /// event resolved by priority, the scores counting goals, the ball
    /// flipped / replaced / advanced accordingly, the player's paddle
    /// answering input, the opponent reacting to the advanced ball, and the
    /// menu untouched.
    pub open spec fn game_step_rel(pre: Self, post: Self, input: ButtonSnapshot) -> bool {
        let e = Self::contact_spec(pre.ball, pre.player, pre.opponent);
        &&& match e {
            BallEvent::TopWall => post.ball == pre.ball.vflipped().advanced(),
            BallEvent::BottomWall => post.ball == pre.ball.vflipped().advanced(),
            BallEvent::PlayerPaddle => post.ball == pre.ball.hflipped().advanced(),
            BallEvent::OpponentPaddle => post.ball == pre.ball.hflipped().advanced(),
            BallEvent::OpponentScored => Self::respawned(post.ball),
            BallEvent::PlayerScored => Self::respawned(post.ball),
            BallEvent::NoContact => post.ball == pre.ball.advanced(),
        }
        &&& post.ball.wf()
        &&& post.score.player as int == pre.score.player + (if e is PlayerScored {
            1int
        } else {
            0int
        })
        &&& post.score.opponent as int == pre.score.opponent + (if e is OpponentScored {
            1int
        } else {
            0int
        })
        &&& post.player == Self::player_after_input(pre.player, input)
        &&& post.opponent == pre.opponent.stepped(
            post.ball.right_spec(),
            post.ball.top_spec(),
            post.ball.bottom_spec(),
        )
        &&& post.main_menu.selected == pre.main_menu.selected
        &&& post.main_menu.visible == pre.main_menu.visible
        &&& post.main_menu.items@ == pre.main_menu.items@
        &&& post.main_menu.title@ == pre.main_menu.title@
        &&& post.menu_open == pre.menu_open
    }

    /// The menu-step transition, latches and tick fields aside. Navigation
    /// fires only on button edges, down before up, and clamps at the ends;
    /// a confirm edge then dispatches on the cursor: the first item is the
    /// difficulty sub-menu hook and does nothing, the second resets both
    /// scores and closes the menu, the third closes it; closing hides the
    /// menu and resets its cursor. Gameplay entities never move while the
    /// menu is open.
    pub open spec fn menu_step_rel(pre: Self, post: Self, input: ButtonSnapshot) -> bool {
        let fire_down = input.down && !pre.latch_down;
        let fire_up = input.up && !pre.latch_up;
        let fire_confirm = input.confirm && !pre.latch_confirm;
        let len = pre.main_menu.items@.len() as int;
        let s1 = if fire_down && pre.main_menu.selected + 1 < len {
            pre.main_menu.selected + 1
        } else {
            pre.main_menu.selected as int
        };
        let s2 = if fire_up && s1 != 0 {
            s1 - 1
        } else {
            s1
        };
        &&& if fire_confirm && (s2 == 1 || s2 == 2) {
            &&& post.main_menu.selected == 0
            &&& post.main_menu.visible == false
            &&& post.menu_open == false
            &&& post.score.player as int == if s2 == 1 {
                0int
            } else {
                pre.score.player as int
            }
            &&& post.score.opponent as int == if s2 == 1 {
                0int
            } else {
                pre.score.opponent as int
            }
        } else {
            &&& post.main_menu.selected == s2
            &&& post.main_menu.visible == pre.main_menu.visible
            &&& post.menu_open == true
            &&& post.score == pre.score
        }
        &&& post.main_menu.items@ == pre.main_menu.items@
        &&& post.main_menu.title@ == pre.main_menu.title@
        &&& post.ball == pre.ball
        &&& post.player == pre.player
        &&& post.opponent == pre.opponent
    }

    /// The transition that opens the menu, latches and tick fields aside:
    /// the menu becomes open and visible with its cursor untouched, and the
    /// whole gameplay state is left exactly as it was for this frame.
    pub open spec fn open_menu_rel(pre: Self, post: Self) -> bool {
        &&& post.menu_open == true
        &&& post.main_menu.visible == true
        &&& post.main_menu.selected == pre.main_menu.selected
        &&& post.main_menu.items@ == pre.main_menu.items@
        &&& post.main_menu.title@ == pre.main_menu.title@
        &&& post.ball == pre.ball
        &&& post.player == pre.player
        &&& post.opponent == pre.opponent
        &&& post.score == pre.score
    }

    /// One whole simulated frame: every latch takes the level its button
    /// reads this frame, and exactly one of the three transitions runs — a
    /// menu step while the menu is open, opening the menu on a rising edge
    /// of Start, or a gameplay step.
    pub open spec fn frame_rel(pre: Self, post: Self, input: ButtonSnapshot) -> bool {
        &&& post.latch_up == input.up
        &&& post.latch_down == input.down
        &&& post.latch_confirm == input.confirm
        &&& post.latch_start == input.start
        &&& post.ticks_per_update == pre.ticks_per_update
        &&& if pre.menu_open {
            Self::menu_step_rel(pre, post, input)
        } else if input.start && !pre.latch_start {
            Self::open_menu_rel(pre, post)
        } else {
            Self::game_step_rel(pre, post, input)
        }
    }

    /// Law: on any gameplay step whose resolved event is the ball crossing
    /// the left boundary, the opponent's score rises by exactly one, the
    /// player's score is untouched, and the replacement ball starts over at
    /// screen center with the base radius, a cleared flip counter, and a
    /// direction whose components are each the configured base speed or its
    /// negation — the speed escalated during the rally is gone.
    pub proof fn lemma_left_goal(pre: Self, post: Self, input: ButtonSnapshot)
        requires
            Self::game_step_rel(pre, post, input),
            Self::contact_spec(pre.ball, pre.player, pre.opponent) is OpponentScored,
        ensures
            post.score.opponent == pre.score.opponent + 1,
            post.score.player == pre.score.player,
            post.ball.speed_counter == 0,
            post.ball.radius == BALL_RADIUS,
            post.ball.base_speed == BALL_BASE_SPEED,
            post.ball.dir_x == BALL_BASE_SPEED || post.ball.dir_x == -(BALL_BASE_SPEED as int),
            post.ball.dir_y == BALL_BASE_SPEED || post.ball.dir_y == -(BALL_BASE_SPEED as int),
            post.ball.x == SCREEN_WIDTH / 2 + post.ball.dir_x,
            post.ball.y == SCREEN_HEIGHT / 2 + post.ball.dir_y,
    {
    }

    /// Creates the whole game: the player's paddle near the left edge, a
    /// hard opponent, a fresh ball at screen center, zeroed scores, the
    /// frame interval derived from the updates-per-second setting, the
    /// three-item main menu, and a random source built from the seed.
    pub fn new(ticks_per_second: u32, seed: u64) -> (r: PongController)
        requires
            ticks_per_second >= 1,
        ensures
            r.player == (Paddle {
                x: 10i32,
                y: (SCREEN_HEIGHT / 2) as i32,
                thickness: 10u32,
                height: 40u32,
                speed: PaddleMovementSpeed::Normal,
            }),
            r.opponent.difficulty == OpponentDifficulty::Hard,
            r.opponent.detection_x == crate::opponent::DETECTION_X_BASE - 75,
            r.ball.x == SCREEN_WIDTH / 2,
            r.ball.y == SCREEN_HEIGHT / 2,
            r.ball.radius == BALL_RADIUS,
            r.ball.base_speed == BALL_BASE_SPEED,
            r.ball.speed_counter == 0,
            r.ball.dir_x == BALL_BASE_SPEED || r.ball.dir_x == -(BALL_BASE_SPEED as int),
            r.ball.dir_y == BALL_BASE_SPEED || r.ball.dir_y == -(BALL_BASE_SPEED as int),
            r.score == (Score { player: 0u32, opponent: 0u32 }),
            r.ticks_per_update == 1000u32 as int / ticks_per_second as int,
            r.last_tick == 0,
            r.menu_open == false,
            r.latch_up == false,
            r.latch_down == false,
            r.latch_confirm == false,
            r.latch_start == false,
            r.main_menu.selected == 0,
            r.main_menu.visible == false,
            r.main_menu.items@.len() == 3,
            r.main_menu.title@ == "Main Menu"@,
            r.main_menu.items@[0]@ == "Set Difficulty"@,
            r.main_menu.items@[1]@ == "Reset Score"@,
            r.main_menu.items@[2]@ == "Close Menu"@,
            r.frame_safe(),
    {
        let player = PaddleBuilder::new()
            .set_default_dimensions()
            .set_speed(PaddleMovementSpeed::Normal)
            .set_x(10)
            .set_y(SCREEN_HEIGHT as i32 / 2)
            .build();
        let mut rng = rng_from_seed(seed);
        let opponent = Opponent::new(OpponentDifficulty::Hard);
        let ball = Ball::new(
            SCREEN_WIDTH as i32 / 2,
            SCREEN_HEIGHT as i32 / 2,
            BALL_RADIUS,
            BALL_BASE_SPEED,
            &mut rng,
        );
        let score = Score { player: 0, opponent: 0 };
        let ticks_per_update = 1000 / ticks_per_second;
        let mut items: Vec<String> = Vec::new();
        items.push(String::from_str("Set Difficulty"));
        items.push(String::from_str("Reset Score"));
        items.push(String::from_str("Close Menu"));
        let main_menu = Menu::new(String::from_str("Main Menu"), items);
        PongController {
            player,
            opponent,
            ball,
            score,
            ticks_per_update,
            last_tick: 0,
            main_menu,
            menu_open: false,
            latch_up: false,
            latch_down: false,
            latch_confirm: false,
            latch_start: false,
            rng,
        }
    }

    /// One gameplay step: resolves the single highest-priority event —
    /// bounces flip the ball, goals score and replace it — then advances
    /// the ball, answers the player's held input, and lets the opponent
    /// react to the advanced ball. Returns the resolved event.
    #[verifier::rlimit(100)]
    pub fn step_game(&mut self, input: ButtonSnapshot) -> (e: BallEvent)
        requires
            old(self).frame_safe(),
        ensures
            e == Self::contact_spec(old(self).ball, old(self).player, old(self).opponent),
            Self::game_step_rel(*old(self), *final(self), input),
            final(self).latch_up == old(self).latch_up,
            final(self).latch_down == old(self).latch_down,
            final(self).latch_confirm == old(self).latch_confirm,
            final(self).latch_start == old(self).latch_start,
            final(self).last_tick == old(self).last_tick,
            final(self).ticks_per_update == old(self).ticks_per_update,
    {
        let bounds = self.ball.get_bounds();
        let e: BallEvent;
        if bounds.top <= 0 {
            self.ball.flip_direction(BallAxes::Vertical);
            e = BallEvent::TopWall;
        } else if bounds.bottom >= SCREEN_HEIGHT as i32 {
            self.ball.flip_direction(BallAxes::Vertical);
            e = BallEvent::BottomWall;
        } else if self.player.contains(bounds.left, bounds.bottom, true) || self.player.contains(
            bounds.left,
            bounds.top,
            true,
        ) {
            self.ball.flip_direction(BallAxes::Horizontal);
            // A defensive nudge of the paddle's box: one step up then one
            // step down, a net no-op on its position.
            self.player.move_up();
            self.player.move_down();
            e = BallEvent::PlayerPaddle;
        } else if self.opponent.contains(bounds.right, bounds.bottom) || self.opponent.contains(
            bounds.right,
            bounds.top,
        ) {
            self.ball.flip_direction(BallAxes::Horizontal);
            e = BallEvent::OpponentPaddle;
        } else if bounds.left <= 0 {
            self.score.opponent = self.score.opponent + 1;
            self.ball = Ball::new(
                SCREEN_WIDTH as i32 / 2,
                SCREEN_HEIGHT as i32 / 2,
                BALL_RADIUS,
                BALL_BASE_SPEED,
                &mut self.rng,
            );
            e = BallEvent::OpponentScored;
        } else if bounds.right >= SCREEN_WIDTH as i32 {
            self.score.player = self.score.player + 1;
            self.ball = Ball::new(
                SCREEN_WIDTH as i32 / 2,
                SCREEN_HEIGHT as i32 / 2,
                BALL_RADIUS,
                BALL_BASE_SPEED,
                &mut self.rng,
            );
            e = BallEvent::PlayerScored;
        } else {
            e = BallEvent::NoContact;
        }
        self.ball.step_direction();
        let player_bottom = self.player.y + self.player.height as i32;
        if input.up && self.player.y > 0 {
            self.player.move_up();
        } else if input.down && player_bottom < SCREEN_HEIGHT as i32 {
            self.player.move_down();
        }
        let ball_bounds = self.ball.get_bounds();
        self.opponent.step_opponent(&ball_bounds);
        e
    }

    /// One simulated frame: refreshes every button latch from this frame's
    /// levels, then runs exactly one step — menu navigation and dispatch
    /// while the menu is open, opening the menu on a rising edge of Start,
    /// or one gameplay step.
    pub fn step_frame(&mut self, input: ButtonSnapshot)
        requires
            old(self).frame_safe(),
        ensures
            Self::frame_rel(*old(self), *final(self), input),
            final(self).last_tick == old(self).last_tick,
    {
        let fire_up = input.up && !self.latch_up;
        let fire_down = input.down && !self.latch_down;
        let fire_confirm = input.confirm && !self.latch_confirm;
        let fire_start = input.start && !self.latch_start;
        self.latch_up = input.up;
        self.latch_down = input.down;
        self.latch_confirm = input.confirm;
        self.latch_start = input.start;
        if self.menu_open {
            if fire_down {
                self.main_menu.move_down();
            }
            if fire_up {
                self.main_menu.move_up();
            }
            if fire_confirm {
                let idx = self.main_menu.return_selected_index();
                if idx == 1 {
                    self.score.player = 0;
                    self.score.opponent = 0;
                    self.menu_open = false;
                    self.main_menu.hide_menu();
                } else if idx == 2 {
                    self.menu_open = false;
                    self.main_menu.hide_menu();
                }
                // Index 0 is the difficulty sub-menu hook, a deliberate
                // no-op in the base design; the menu invariant rules out
                // any index beyond the three items.
            }
        } else if fire_start {
            self.menu_open = true;
            self.main_menu.show_menu();
        } else {
            let _ = self.step_game(input);
        }
    }

    /// One loop iteration: if the frame interval has not yet elapsed since
    /// the last simulated tick, nothing changes; otherwise exactly one
    /// frame is simulated and the current tick is recorded. Missed
    /// intervals are dropped, never simulated twice.
    pub fn poll(&mut self, current_tick: u64, input: ButtonSnapshot) -> (stepped: bool)
        requires
            old(self).frame_safe(),
            old(self).last_tick + old(self).ticks_per_update < u64::MAX,
        ensures
            stepped == (current_tick > old(self).last_tick + old(self).ticks_per_update),
            !stepped ==> *final(self) == *old(self),
            stepped ==> Self::frame_rel(*old(self), *final(self), input),
            stepped ==> final(self).last_tick == current_tick,
    {
        if current_tick > self.last_tick + self.ticks_per_update as u64 {
            self.last_tick = current_tick;
            self.step_frame(input);
            true
        } else {
            false
        }
    }
}

} // verus!
