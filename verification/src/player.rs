//! Players: who steers a paddle, by keys or by computer.

use crate::ball::{Ball, BallView};
use crate::fixed::{div_round, lemma_round_div_bounded, round_div, signum};
use crate::input::{InputState, KeyMap, KeyMapView, any_down};
use crate::paddle::{Paddle, PaddleView};
use crate::physics::lemma_product_bound;
use vstd::prelude::*;

verus! {

/// How far ahead of itself a computer player looks for the ball.
pub const AI_REACH: i32 = 1_300_000;

/// How far from its paddle's centre a computer player lets the ball
/// arrive before it moves.
pub const AI_SLACK: i32 = 50_000;

/// What a player does with its paddle in one step.
#[derive(Clone, Copy, Debug, PartialEq, Eq, Structural)]
pub enum PaddleMove {
    Up,
    Down,
    Stay,
}

/// How far above the paddle's centre the ball will cross the paddle's
/// column if it keeps its velocity, which has a horizontal part.
pub open spec fn intercept_above(paddle: PaddleView, ball: BallView) -> int {
    let run = paddle.position.x - ball.position.x;
    let rise = if ball.velocity.x > 0 {
        round_div(run * ball.velocity.y, ball.velocity.x as int)
    } else {
        round_div(-(run * ball.velocity.y), -ball.velocity.x)
    };
    ball.position.y + rise - paddle.position.y
}

/// What a computer player does: it moves only while the ball comes its
/// way and is within reach, and then towards the height at which the ball
/// will arrive, unless that is within `AI_SLACK` of the paddle's centre.
/// A ball without horizontal speed counts as moving right and arriving
/// infinitely far up or down.
pub open spec fn ai_move(paddle: PaddleView, ball: BallView) -> PaddleMove {
    let gap = ball.position.x - paddle.position.x;
    if signum(paddle.position.x as int) == signum(ball.velocity.x as int) && -AI_REACH <= gap
        <= AI_REACH {
        if ball.velocity.x == 0 {
            let towards = (paddle.position.x - ball.position.x) * ball.velocity.y;
            if towards < 0 {
                PaddleMove::Down
            } else if towards > 0 {
                PaddleMove::Up
            } else {
                PaddleMove::Stay
            }
        } else if intercept_above(paddle, ball) < -AI_SLACK {
            PaddleMove::Down
        } else if intercept_above(paddle, ball) > AI_SLACK {
            PaddleMove::Up
        } else {
            PaddleMove::Stay
        }
    } else {
        PaddleMove::Stay
    }
}

/// What a human player does: down if any of the keys for down is held,
/// else up if any of the keys for up is held.
pub open spec fn human_move(map: KeyMapView, flags: u32) -> PaddleMove {
    if any_down(flags, map.move_down) {
        PaddleMove::Down
    } else if any_down(flags, map.move_up) {
        PaddleMove::Up
    } else {
        PaddleMove::Stay
    }
}

/// A player as plain values.
pub struct PlayerView {
    pub id: u32,
    pub score: u32,
    pub paddle: PaddleView,
    pub keymap: Option<KeyMapView>,
}

impl PlayerView {
    /// A player with a key map is steered by the keys, one without by the
    /// computer.
    pub open spec fn decide(self, flags: u32, ball: BallView) -> PaddleMove {
        match self.keymap {
            Some(map) => human_move(map, flags),
            None => ai_move(self.paddle, ball),
        }
    }

    pub open spec fn update(self, delta: u32, flags: u32, ball: BallView) -> PlayerView {
        PlayerView {
            paddle: match self.decide(flags, ball) {
                PaddleMove::Down => self.paddle.move_down(delta),
                PaddleMove::Up => self.paddle.move_up(delta),
                PaddleMove::Stay => self.paddle,
            },
            ..self
        }
    }
}

/// A player: a score, a paddle and, for a human, the keys that move it.
#[derive(Debug)]
pub struct Player {
    id: u32,
    score: u32,
    paddle: Paddle,
    keymap: Option<KeyMap>,
}

impl View for Player {
    type V = PlayerView;

    closed spec fn view(&self) -> PlayerView {
        PlayerView {
            id: self.id,
            score: self.score,
            paddle: self.paddle@,
            keymap: match self.keymap {
                Some(map) => Some(map@),
                None => None,
            },
        }
    }
}

/// What the computer does with `paddle` when the ball is `ball`.
pub fn ai_decide(paddle: &Paddle, ball: &Ball) -> (r: PaddleMove)
    ensures
        r == ai_move(paddle@, ball@),
{
    let paddle_x: i128 = paddle.position().x as i128;
    let gap: i128 = ball.position().x as i128 - paddle_x;
    let vx: i128 = ball.velocity().x as i128;
    let vy: i128 = ball.velocity().y as i128;
    let same_side = (paddle_x >= 0) == (vx >= 0);
    if !(same_side && -(AI_REACH as i128) <= gap && gap <= AI_REACH as i128) {
        return PaddleMove::Stay;
    }
    let run: i128 = -gap;
    proof {
        lemma_product_bound(run as int, vy as int, 0x1_0000_0000, 0x1_0000_0000);
    }
    let towards: i128 = run * vy;
    if vx == 0 {
        if towards < 0 {
            PaddleMove::Down
        } else if towards > 0 {
            PaddleMove::Up
        } else {
            PaddleMove::Stay
        }
    } else {
        let rise: i128 = if vx > 0 {
            div_round(towards, vx)
        } else {
            div_round(-towards, -vx)
        };
        proof {
            if vx > 0 {
                lemma_round_div_bounded(
                    towards as int,
                    vx as int,
                    0x1_0000_0000_0000_0000,
                );
                assert(0x1_0000_0000_0000_0000 * vx >= 0x1_0000_0000_0000_0000)
                    by (nonlinear_arith)
                    requires
                        vx >= 1,
                ;
            } else {
                lemma_round_div_bounded(
                    -towards as int,
                    -vx as int,
                    0x1_0000_0000_0000_0000,
                );
                assert(0x1_0000_0000_0000_0000 * (-vx) >= 0x1_0000_0000_0000_0000)
                    by (nonlinear_arith)
                    requires
                        -vx >= 1,
                ;
            }
        }
        let above: i128 = ball.position().y as i128 + rise - paddle.position().y as i128;
        if above < -(AI_SLACK as i128) {
            PaddleMove::Down
        } else if above > AI_SLACK as i128 {
            PaddleMove::Up
        } else {
            PaddleMove::Stay
        }
    }
}

impl Player {
    pub fn new(id: u32, paddle: Paddle, keymap: Option<KeyMap>) -> (r: Self)
        ensures
            r@ == (PlayerView {
                id,
                score: 0,
                paddle: paddle@,
                keymap: match keymap {
                    Some(map) => Some(map@),
                    None => None,
                },
            }),
    {
        Player { id, score: 0u32, paddle, keymap }
    }

    pub fn id(&self) -> (r: u32)
        ensures
            r == self@.id,
    {
        self.id
    }

    pub fn score(&self) -> (r: u32)
        ensures
            r == self@.score,
    {
        self.score
    }

    pub fn paddle(&self) -> (r: &Paddle)
        ensures
            r@ == self@.paddle,
    {
        &self.paddle
    }

    /// Whether keys steer this player's paddle.
    pub fn is_human(&self) -> (r: bool)
        ensures
            r == self@.keymap is Some,
    {
        self.keymap.is_some()
    }

    pub fn reset(&mut self)
        ensures
            final(self)@ == (PlayerView { score: 0, ..old(self)@ }),
    {
        self.score = 0;
    }

    pub fn increment_score(&mut self)
        requires
            old(self)@.score < u32::MAX,
        ensures
            final(self)@ == (PlayerView { score: (old(self)@.score + 1) as u32, ..old(self)@ }),
    {
        self.score = self.score + 1;
    }

    /// What the player does with its paddle now.
    pub fn decide(&self, input: &InputState, ball: &Ball) -> (r: PaddleMove)
        ensures
            r == self@.decide(input.flags(), ball@),
    {
        match &self.keymap {
            Some(map) => {
                if input.any_pressed(map.move_down.as_slice()) {
                    PaddleMove::Down
                } else if input.any_pressed(map.move_up.as_slice()) {
                    PaddleMove::Up
                } else {
                    PaddleMove::Stay
                }
            },
            None => ai_decide(&self.paddle, ball),
        }
    }

    /// Moves the paddle for `delta` milliseconds as the keys or the
    /// computer decide.
    pub fn update(&mut self, delta: u32, input: &InputState, ball: &Ball)
        ensures
            final(self)@ == old(self)@.update(delta, input.flags(), ball@),
    {
        match self.decide(input, ball) {
            PaddleMove::Down => {
                self.paddle.move_down(delta);
            },
            PaddleMove::Up => {
                self.paddle.move_up(delta);
            },
            PaddleMove::Stay => {},
        }
    }
}

} // verus!
