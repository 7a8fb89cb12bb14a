//! The game: rounds of a ball between two players, and the session
//! around it that takes input and counts frames.

use crate::ball::{Ball, BallView, DEFAULT_X_VELO, DEFAULT_Y_VELO, resolve_collision};
use crate::fixed::{div_round, lemma_round_div_bounded, round_div, saturate, saturate_i128, UNIT};
use crate::frame::{FrameCounter, FrameRate, as_delta, elapsed};
use crate::input::{
    ElementState, InputController, InputState, KeyEvent, KeyKind, KeyMap, KeyMapView, is_pressed,
    spec_mask_from_key,
};
use crate::motion::{FIELD_MAX, FIELD_MIN};
use crate::paddle::{Paddle, PaddleView, PADDLE_HEIGHT, PADDLE_WIDTH};
use crate::physics::{Surface, Vec2, lemma_product_bound};
use crate::player::{Player, PlayerView};
use vstd::prelude::*;

verus! {

/// The bounce factor handed on for a paddle: one and a half.
pub const PADDLE_BOUNCE_FACTOR: i32 = 1_500_000;

/// The bounce factor handed on for a wall.
pub const WALL_BOUNCE_FACTOR: i32 = 0;

/// How long a round waits before the ball starts, in milliseconds.
pub const START_DELAY: u64 = 1000;

/// Where a round stands.
#[derive(Clone, Copy, Debug, PartialEq, Eq, Structural)]
pub enum GameState {
    Starting,
    Playing,
    Pause,
    WinScreen,
}

/// The ball after it was tested against the facing edge of each player's
/// paddle in turn. The edge is chosen by where the ball is; a ball that
/// touches several edges is mirrored at each, one after the other.
pub open spec fn bounce_off_paddles(ball: BallView, players: Seq<PlayerView>) -> BallView
    decreases players.len(),
{
    if players.len() == 0 {
        ball
    } else {
        let before = bounce_off_paddles(ball, players.drop_last());
        before.resolve_collision(players.last().paddle.surface(before.position))
    }
}

/// The ball after it was tested against each surface in turn.
pub open spec fn bounce_off_surfaces(ball: BallView, surfaces: Seq<Surface>) -> BallView
    decreases surfaces.len(),
{
    if surfaces.len() == 0 {
        ball
    } else {
        bounce_off_surfaces(ball, surfaces.drop_last()).resolve_collision(surfaces.last())
    }
}

/// The players as plain values.
pub open spec fn player_views(players: Seq<Player>) -> Seq<PlayerView> {
    players.map_values(|p: Player| p@)
}

/// The wall below the field; its normal points up.
pub open spec fn floor() -> Surface {
    Surface { a: Vec2 { x: FIELD_MIN, y: FIELD_MIN }, b: Vec2 { x: FIELD_MAX, y: FIELD_MIN } }
}

/// The wall above the field; its normal points down.
pub open spec fn ceiling() -> Surface {
    Surface { a: Vec2 { x: FIELD_MAX, y: FIELD_MAX }, b: Vec2 { x: FIELD_MIN, y: FIELD_MAX } }
}

/// The keys of the left player: all of them with one human, the letters
/// with two, none with any other number.
pub open spec fn left_keymap(players: u32) -> Option<KeyMapView> {
    if players == 1 {
        Some(
            KeyMapView {
                move_down: seq![KeyKind::ArrowDown, KeyKind::A, KeyKind::J],
                move_up: seq![KeyKind::ArrowUp, KeyKind::Q, KeyKind::K],
            },
        )
    } else if players == 2 {
        Some(
            KeyMapView {
                move_down: seq![KeyKind::A, KeyKind::J],
                move_up: seq![KeyKind::Q, KeyKind::K],
            },
        )
    } else {
        None
    }
}

/// The keys of the right player: the arrows with two humans, else none.
pub open spec fn right_keymap(players: u32) -> Option<KeyMapView> {
    if players == 2 {
        Some(KeyMapView { move_down: seq![KeyKind::ArrowDown], move_up: seq![KeyKind::ArrowUp] })
    } else {
        None
    }
}

/// A game as plain values.
pub struct GameDataView {
    pub start_time: u64,
    pub state: GameState,
    pub ball: BallView,
    pub players: Seq<PlayerView>,
    pub surfaces: Seq<Surface>,
}

impl GameDataView {
    /// A new game for `players` humans at time `now`: the paddles near the
    /// left and right edge, the ball in the middle, floor and ceiling.
    pub open spec fn initial(players: u32, now: u64) -> GameDataView {
        GameDataView {
            start_time: now,
            state: GameState::Starting,
            ball: BallView {
                id: 2,
                radius: 20_000,
                position: Vec2 { x: 0, y: 0 },
                velocity: Vec2 { x: DEFAULT_X_VELO, y: DEFAULT_Y_VELO },
            },
            players: seq![
                PlayerView {
                    id: 0,
                    score: 0,
                    paddle: PaddleView {
                        id: 0,
                        width: PADDLE_WIDTH,
                        height: PADDLE_HEIGHT,
                        position: Vec2 { x: -975_000i32, y: 0 },
                        velocity: Vec2 { x: 0, y: 1000 },
                    },
                    keymap: left_keymap(players),
                },
                PlayerView {
                    id: 1,
                    score: 0,
                    paddle: PaddleView {
                        id: 1,
                        width: PADDLE_WIDTH,
                        height: PADDLE_HEIGHT,
                        position: Vec2 { x: 975_000, y: 0 },
                        velocity: Vec2 { x: 0, y: 1000 },
                    },
                    keymap: right_keymap(players),
                },
            ],
            surfaces: seq![floor(), ceiling()],
        }
    }

    /// The round starts over: the ball is back in the middle and waits.
    pub open spec fn reset(self, now: u64) -> GameDataView {
        GameDataView {
            state: GameState::Starting,
            ball: self.ball.reset(),
            start_time: now,
            ..self
        }
    }

    pub open spec fn pause(self) -> GameDataView {
        if self.state == GameState::Playing {
            GameDataView { state: GameState::Pause, ..self }
        } else {
            self
        }
    }

    pub open spec fn unpause(self) -> GameDataView {
        if self.state == GameState::Pause {
            GameDataView { state: GameState::Playing, ..self }
        } else {
            self
        }
    }

    /// Milliseconds since the round started; none if the clock reads
    /// earlier than the start.
    pub open spec fn elapsed(self, now: u64) -> int {
        if now >= self.start_time {
            now - self.start_time
        } else {
            0
        }
    }

    /// The ball after one step of `delta` milliseconds: moved, bounced off
    /// paddles and then walls, its speed limited.
    pub open spec fn moved_ball(self, delta: u32) -> BallView {
        bounce_off_surfaces(
            bounce_off_paddles(self.ball.apply_velocity(delta), self.players),
            self.surfaces,
        ).clamp_velocity()
    }

    /// One step of a round that is being played. A ball that has left the
    /// field to the left or right ends the round, which starts over;
    /// otherwise the players move, and the space key pauses.
    pub open spec fn play(self, now: u64, delta: u32, flags: u32) -> GameDataView {
        let ball = self.moved_ball(delta);
        if ball.position.x > FIELD_MAX || ball.position.x < FIELD_MIN {
            GameDataView { ball, ..self }.reset(now)
        } else {
            GameDataView {
                ball,
                players: self.players.map_values(|p: PlayerView| p.update(delta, flags, ball)),
                state: if is_pressed(flags, KeyKind::Space) {
                    GameState::Pause
                } else {
                    GameState::Playing
                },
                ..self
            }
        }
    }

    /// One step of the game at time `now`, `delta` milliseconds after the
    /// last: a starting round begins to play once `START_DELAY` has
    /// passed, a paused one resumes on the enter key, a won one stays.
    pub open spec fn update(self, now: u64, delta: u32, flags: u32) -> GameDataView {
        match self.state {
            GameState::Starting => if self.elapsed(now) >= START_DELAY {
                GameDataView { state: GameState::Playing, ..self }
            } else {
                self
            },
            GameState::Playing => self.play(now, delta, flags),
            GameState::Pause => if is_pressed(flags, KeyKind::Enter) {
                GameDataView { state: GameState::Playing, ..self }
            } else {
                self
            },
            GameState::WinScreen => self,
        }
    }
}

/// A step never changes who plays or where the walls are, and it changes
/// the state of the round only from starting to playing, from playing to
/// paused or back to starting, and from paused to playing.
pub proof fn lemma_update_keeps_the_table(g: GameDataView, now: u64, delta: u32, flags: u32)
    ensures
        ({
            let next = g.update(now, delta, flags);
            &&& next.surfaces == g.surfaces
            &&& next.players.len() == g.players.len()
            &&& forall|i: int|
                0 <= i < g.players.len() ==> (#[trigger] next.players[i]).id == g.players[i].id
                    && next.players[i].score == g.players[i].score && next.players[i].keymap
                    == g.players[i].keymap
            &&& next.ball.id == g.ball.id
            &&& next.ball.radius == g.ball.radius
            &&& match g.state {
                GameState::Starting => next.state == GameState::Starting || next.state
                    == GameState::Playing,
                GameState::Playing => next.state != GameState::WinScreen,
                GameState::Pause => next.state == GameState::Pause || next.state
                    == GameState::Playing,
                GameState::WinScreen => next == g,
            }
            &&& g.state != GameState::Playing ==> next.ball == g.ball && next.players == g.players
        }),
{
    let ball = g.ball.apply_velocity(delta);
    lemma_paddles_keep_the_ball(ball, g.players);
    lemma_surfaces_keep_the_ball(bounce_off_paddles(ball, g.players), g.surfaces);
}

/// Bouncing off paddles changes the velocity of a ball and nothing else.
pub proof fn lemma_paddles_keep_the_ball(ball: BallView, players: Seq<PlayerView>)
    ensures
        bounce_off_paddles(ball, players).id == ball.id,
        bounce_off_paddles(ball, players).radius == ball.radius,
        bounce_off_paddles(ball, players).position == ball.position,
    decreases players.len(),
{
    if players.len() > 0 {
        lemma_paddles_keep_the_ball(ball, players.drop_last());
    }
}

/// Bouncing off walls changes the velocity of a ball and nothing else.
pub proof fn lemma_surfaces_keep_the_ball(ball: BallView, surfaces: Seq<Surface>)
    ensures
        bounce_off_surfaces(ball, surfaces).id == ball.id,
        bounce_off_surfaces(ball, surfaces).radius == ball.radius,
        bounce_off_surfaces(ball, surfaces).position == ball.position,
    decreases surfaces.len(),
{
    if surfaces.len() > 0 {
        lemma_surfaces_keep_the_ball(ball, surfaces.drop_last());
    }
}

/// The state of a game: the round, the ball, the players and the walls.
#[derive(Debug)]
pub struct GameData {
    start_time: u64,
    state: GameState,
    ball: Ball,
    players: Vec<Player>,
    surfaces: Vec<Surface>,
}

impl View for GameData {
    type V = GameDataView;

    closed spec fn view(&self) -> GameDataView {
        GameDataView {
            start_time: self.start_time,
            state: self.state,
            ball: self.ball@,
            players: player_views(self.players@),
            surfaces: self.surfaces@,
        }
    }
}

fn keys(first: KeyKind, more: &[KeyKind]) -> (r: Vec<KeyKind>)
    ensures
        r@ == seq![first] + more@,
{
    let mut out: Vec<KeyKind> = Vec::new();
    out.push(first);
    let mut i: usize = 0;
    while i < more.len()
        invariant
            0 <= i <= more@.len(),
            out@ == seq![first] + more@.take(i as int),
        decreases more@.len() - i,
    {
        out.push(more[i]);
        assert(out@ =~= seq![first] + more@.take(i + 1));
        i = i + 1;
    }
    assert(more@.take(more@.len() as int) =~= more@);
    out
}

impl GameData {
    /// A new game for `players` humans, started at `now`.
    pub fn new(players: u32, now: u64) -> (r: Self)
        ensures
            r@ == GameDataView::initial(players, now),
    {
        let left_paddle = Paddle::new(
            0,
            Vec2 { x: -990_000 + PADDLE_WIDTH / 2, y: 0 },
            Vec2 { x: 0, y: 1000 },
            PADDLE_WIDTH,
            PADDLE_HEIGHT,
            false,
        );
        let right_paddle = Paddle::new(
            1,
            Vec2 { x: 990_000 - PADDLE_WIDTH / 2, y: 0 },
            Vec2 { x: 0, y: 1000 },
            PADDLE_WIDTH,
            PADDLE_HEIGHT,
            true,
        );
        let ball = Ball::new(2, 20_000);
        let floor = Surface {
            a: Vec2 { x: FIELD_MIN, y: FIELD_MIN },
            b: Vec2 { x: FIELD_MAX, y: FIELD_MIN },
        };
        let ceiling = Surface {
            a: Vec2 { x: FIELD_MAX, y: FIELD_MAX },
            b: Vec2 { x: FIELD_MIN, y: FIELD_MAX },
        };
        let left_keys = if players == 1 {
            let down = [KeyKind::A, KeyKind::J];
            let up = [KeyKind::Q, KeyKind::K];
            Some(
                KeyMap {
                    move_down: keys(KeyKind::ArrowDown, down.as_slice()),
                    move_up: keys(KeyKind::ArrowUp, up.as_slice()),
                },
            )
        } else if players == 2 {
            let down = [KeyKind::J];
            let up = [KeyKind::K];
            Some(
                KeyMap {
                    move_down: keys(KeyKind::A, down.as_slice()),
                    move_up: keys(KeyKind::Q, up.as_slice()),
                },
            )
        } else {
            None
        };
        let right_keys = if players == 2 {
            let none: [KeyKind; 0] = [];
            Some(
                KeyMap {
                    move_down: keys(KeyKind::ArrowDown, none.as_slice()),
                    move_up: keys(KeyKind::ArrowUp, none.as_slice()),
                },
            )
        } else {
            None
        };
        proof {
            if left_keys is Some {
                assert(left_keys->0@.move_down =~= left_keymap(players)->0.move_down);
                assert(left_keys->0@.move_up =~= left_keymap(players)->0.move_up);
            }
            if right_keys is Some {
                assert(right_keys->0@.move_down =~= right_keymap(players)->0.move_down);
                assert(right_keys->0@.move_up =~= right_keymap(players)->0.move_up);
            }
        }
        let player1 = Player::new(0, left_paddle, left_keys);
        let player2 = Player::new(1, right_paddle, right_keys);
        let mut all_players: Vec<Player> = Vec::new();
        all_players.push(player1);
        all_players.push(player2);
        let mut surfaces: Vec<Surface> = Vec::new();
        surfaces.push(floor);
        surfaces.push(ceiling);
        let r = GameData {
            start_time: now,
            state: GameState::Starting,
            ball,
            players: all_players,
            surfaces,
        };
        assert(r@.players =~= GameDataView::initial(players, now).players);
        assert(r@.surfaces =~= GameDataView::initial(players, now).surfaces);
        r
    }

    pub fn reset(&mut self, now: u64)
        ensures
            final(self)@ == old(self)@.reset(now),
    {
        self.state = GameState::Starting;
        self.ball.reset();
        self.start_time = now;
    }

    pub fn ball(&self) -> (r: &Ball)
        ensures
            r@ == self@.ball,
    {
        &self.ball
    }

    pub fn players(&self) -> (r: &[Player])
        ensures
            player_views(r@) == self@.players,
    {
        self.players.as_slice()
    }

    pub fn surfaces(&self) -> (r: &[Surface])
        ensures
            r@ == self@.surfaces,
    {
        self.surfaces.as_slice()
    }

    pub fn state(&self) -> (r: GameState)
        ensures
            r == self@.state,
    {
        self.state
    }

    pub fn pause(&mut self)
        ensures
            final(self)@ == old(self)@.pause(),
    {
        match self.state {
            GameState::Playing => {
                self.state = GameState::Pause;
            },
            _ => {},
        }
    }

    pub fn unpause(&mut self)
        ensures
            final(self)@ == old(self)@.unpause(),
    {
        match self.state {
            GameState::Pause => {
                self.state = GameState::Playing;
            },
            _ => {},
        }
    }

    /// Moves the ball and lets it bounce off paddles and walls.
    fn move_ball(&mut self, delta: u32)
        ensures
            final(self)@ == (GameDataView { ball: old(self)@.moved_ball(delta), ..old(self)@ }),
    {
        let ghost before = self@;
        self.ball.apply_velocity(delta);
        let ghost moved = self.ball@;
        let n = self.players.len();
        let mut i: usize = 0;
        while i < n
            invariant
                0 <= i <= n,
                n == self.players@.len(),
                self@ == (GameDataView { ball: self.ball@, ..before }),
                self.ball@ == bounce_off_paddles(moved, before.players.take(i as int)),
            decreases n - i,
        {
            assert(before.players.take(i + 1).drop_last() =~= before.players.take(i as int));
            let surface = self.players[i].paddle().surface(self.ball.position());
            resolve_collision(&mut self.ball, &surface, PADDLE_BOUNCE_FACTOR);
            i = i + 1;
        }
        assert(before.players.take(n as int) =~= before.players);
        let ghost off_paddles = self.ball@;
        let m = self.surfaces.len();
        let mut j: usize = 0;
        while j < m
            invariant
                0 <= j <= m,
                m == self.surfaces@.len(),
                self@ == (GameDataView { ball: self.ball@, ..before }),
                self.ball@ == bounce_off_surfaces(off_paddles, before.surfaces.take(j as int)),
            decreases m - j,
        {
            assert(before.surfaces.take(j + 1).drop_last() =~= before.surfaces.take(j as int));
            let surface = self.surfaces[j];
            resolve_collision(&mut self.ball, &surface, WALL_BOUNCE_FACTOR);
            j = j + 1;
        }
        assert(before.surfaces.take(m as int) =~= before.surfaces);
        self.ball.clamp_velocity();
    }

    /// Lets every player move its paddle.
    fn move_players(&mut self, delta: u32, input: &InputState)
        ensures
            final(self)@ == (GameDataView {
                players: old(self)@.players.map_values(
                    |p: PlayerView| p.update(delta, input.flags(), old(self)@.ball),
                ),
                ..old(self)@
            }),
    {
        let ghost before = self@;
        let ball = self.ball;
        let n = self.players.len();
        let mut i: usize = 0;
        while i < n
            invariant
                0 <= i <= n,
                n == self.players@.len(),
                n == before.players.len(),
                ball@ == before.ball,
                self.start_time == before.start_time,
                self.state == before.state,
                self.ball@ == before.ball,
                self.surfaces@ == before.surfaces,
                forall|k: int|
                    0 <= k < i ==> (#[trigger] self.players@[k])@ == before.players[k].update(
                        delta,
                        input.flags(),
                        before.ball,
                    ),
                forall|k: int| i <= k < n ==> (#[trigger] self.players@[k])@ == before.players[k],
            decreases n - i,
        {
            let player = &mut self.players[i];
            player.update(delta, input, &ball);
            i = i + 1;
        }
        assert(self@.players =~= before.players.map_values(
            |p: PlayerView| p.update(delta, input.flags(), before.ball),
        ));
    }

    /// One step of the game at time `now`, `delta` milliseconds after the
    /// last, with the keys held as `input` says.
    pub fn update(&mut self, now: u64, delta: u32, input: InputState)
        ensures
            final(self)@ == old(self)@.update(now, delta, input.flags()),
    {
        let elapsed = if now >= self.start_time {
            now - self.start_time
        } else {
            0
        };
        match self.state {
            GameState::Starting => {
                if elapsed >= START_DELAY {
                    self.state = GameState::Playing;
                }
            },
            GameState::Playing => {
                self.move_ball(delta);
                if self.ball.position().x > FIELD_MAX {
                    self.reset(now);
                    return ;
                } else if self.ball.position().x < FIELD_MIN {
                    self.reset(now);
                    return ;
                }
                self.move_players(delta, &input);
                if input.is_key_pressed(&KeyKind::Space) {
                    self.pause();
                    return ;
                }
            },
            GameState::Pause => {
                if input.is_key_pressed(&KeyKind::Enter) {
                    self.unpause();
                }
            },
            GameState::WinScreen => {},
        }
    }
}

/// What is on screen.
#[derive(Clone, Copy, Debug, PartialEq, Eq, Structural)]
pub enum SceneState {
    /// The menu is shown; the game stands still.
    Menu,
    /// The game runs.
    Playing,
}

/// Where in the menu the player is.
#[derive(Clone, Copy, Debug, PartialEq, Eq, Structural)]
pub enum MenuState {
    PlayerSelect,
}

/// What one frame came to.
#[derive(Clone, Copy, Debug, PartialEq, Eq)]
pub struct Frame {
    /// The frame rate, when it is due.
    pub fps: Option<FrameRate>,
    /// Whether the game ran and is to be drawn.
    pub playing: bool,
}

/// A pixel coordinate within a window `extent` pixels across, as a
/// coordinate from -1 at the one edge to 1 at the other.
pub open spec fn cursor_coordinate(pixel: i32, extent: i32) -> i32 {
    saturate(round_div(2 * pixel * UNIT, extent as int) - UNIT)
}

/// A session as plain values.
pub struct GameView {
    pub flags: u32,
    pub cursor: Vec2,
    pub game_data: GameDataView,
    pub scene_state: SceneState,
    pub menu_state: MenuState,
    pub players: u8,
    pub frame_counter: FrameCounter,
    pub width: i32,
    pub height: i32,
}

impl GameView {
    /// The session after the frame that ends at `now`: the frame is
    /// counted, and while the game is on screen it advances by the time
    /// since the frame before.
    pub open spec fn update(self, now: u64) -> GameView {
        GameView {
            frame_counter: self.frame_counter.spec_increment(now).spec_fps(now),
            game_data: match self.scene_state {
                SceneState::Menu => self.game_data,
                SceneState::Playing => self.game_data.update(
                    now,
                    as_delta(elapsed(now, self.frame_counter.last_frame_time)),
                    self.flags,
                ),
            },
            ..self
        }
    }

    /// The cursor at pixel `(x, y)` of the window. A window without
    /// extent has no place for a cursor: nothing changes.
    pub open spec fn update_cursor(self, x: i32, y: i32) -> GameView {
        if self.width > 0 && self.height > 0 {
            GameView {
                cursor: Vec2 {
                    x: cursor_coordinate(x, self.width),
                    y: cursor_coordinate(y, self.height),
                },
                ..self
            }
        } else {
            self
        }
    }
}

/// A session: the game, the input it reacts to and the frames it has
/// taken.
#[derive(Debug)]
pub struct Game {
    input: InputController,
    game_data: GameData,
    scene_state: SceneState,
    menu_state: MenuState,
    players: u8,
    frame_counter: FrameCounter,
    width: i32,
    height: i32,
}

impl View for Game {
    type V = GameView;

    closed spec fn view(&self) -> GameView {
        GameView {
            flags: self.input.flags(),
            cursor: self.input.cursor(),
            game_data: self.game_data@,
            scene_state: self.scene_state,
            menu_state: self.menu_state,
            players: self.players,
            frame_counter: self.frame_counter,
            width: self.width,
            height: self.height,
        }
    }
}

fn cursor_coordinate_of(pixel: i32, extent: i32) -> (r: i32)
    requires
        extent > 0,
    ensures
        r == cursor_coordinate(pixel, extent),
{
    proof {
        lemma_product_bound(2 * pixel as int, UNIT as int, 0x1_0000_0000, 1_000_000);
        lemma_round_div_bounded(
            2 * pixel * UNIT,
            extent as int,
            0x1_0000_0000int * 1_000_000,
        );
        assert((0x1_0000_0000int * 1_000_000) * extent >= 0x1_0000_0000int * 1_000_000)
            by (nonlinear_arith)
            requires
                extent >= 1,
        ;
    }
    let scaled: i128 = div_round(2 * (pixel as i128) * (UNIT as i128), extent as i128);
    saturate_i128(scaled - UNIT as i128)
}

impl Game {
    /// A session in a window of the given size, begun at `now`: two
    /// computer players, the game on screen.
    pub fn new(width: i32, height: i32, now: u64) -> (r: Self)
        ensures
            r@ == (GameView {
                flags: 0,
                cursor: Vec2 { x: 0, y: 0 },
                game_data: GameDataView::initial(0, now),
                scene_state: SceneState::Playing,
                menu_state: MenuState::PlayerSelect,
                players: 1,
                frame_counter: FrameCounter {
                    begin: now,
                    frame_count: 0,
                    last_frame_time: now,
                    last_update_time: now,
                    last_update_val: FrameRate { frames: 0, seconds: 0 },
                },
                width,
                height,
            }),
    {
        let players: u32 = 0;
        let game_data = GameData::new(players, now);
        Game {
            input: InputController::new(),
            players: 1,
            game_data,
            scene_state: SceneState::Playing,
            menu_state: MenuState::PlayerSelect,
            frame_counter: FrameCounter::new(now),
            width,
            height,
        }
    }

    pub fn game_data(&self) -> (r: &GameData)
        ensures
            r@ == self@.game_data,
    {
        &self.game_data
    }

    pub fn scene_state(&self) -> (r: SceneState)
        ensures
            r == self@.scene_state,
    {
        self.scene_state
    }

    pub fn input_state(&self) -> (r: InputState)
        ensures
            r.flags() == self@.flags,
            r.cursor() == self@.cursor,
    {
        self.input.state()
    }

    /// Remembers the size of the window.
    pub fn resize(&mut self, width: i32, height: i32)
        ensures
            final(self)@ == (GameView { width, height, ..old(self)@ }),
    {
        self.width = width;
        self.height = height;
    }

    pub fn update_cursor(&mut self, x: i32, y: i32)
        ensures
            final(self)@ == old(self)@.update_cursor(x, y),
    {
        if self.width > 0 && self.height > 0 {
            let n_x = cursor_coordinate_of(x, self.width);
            let n_y = cursor_coordinate_of(y, self.height);
            self.input.handle_cursor(n_x, n_y);
        }
    }

    pub fn handle_keyboard(&mut self, event: KeyEvent)
        ensures
            final(self)@ == (GameView {
                flags: match event.state {
                    ElementState::Pressed => old(self)@.flags | spec_mask_from_key(
                        event.logical_key,
                    ),
                    ElementState::Released => old(self)@.flags & !spec_mask_from_key(
                        event.logical_key,
                    ),
                },
                ..old(self)@
            }),
    {
        self.input.handle_keyboard(event)
    }

    /// Runs the frame that ends at `now`.
    pub fn update(&mut self, now: u64) -> (r: Frame)
        ensures
            final(self)@ == old(self)@.update(now),
            r.playing == (old(self)@.scene_state == SceneState::Playing),
            r.fps == if old(self)@.frame_counter.spec_increment(now).fps_due(now) {
                Some(old(self)@.frame_counter.spec_increment(now).rate(now))
            } else {
                None
            },
    {
        let delta = self.frame_counter.increment(now);
        let fps = self.frame_counter.fps(now);
        match self.scene_state {
            SceneState::Menu => {
                match self.menu_state {
                    MenuState::PlayerSelect => {},
                }
                Frame { fps, playing: false }
            },
            SceneState::Playing => {
                let input_state = self.input.state();
                self.game_data.update(now, delta, input_state);
                Frame { fps, playing: true }
            },
        }
    }
}

} // verus!
