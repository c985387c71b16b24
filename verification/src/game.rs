//! The game: timed movement, food, input gating and the game-over cycle.

use crate::draw::{Block, Paint, Rectangle, Shape};
use crate::random::gen_range;
use crate::snake::{Direction, Snake, SnakeView};
use rand::thread_rng;
use vstd::prelude::*;

verus! {

/// Time between two moves of the snake, in nanoseconds.
pub const MOVE_DELAY: u64 = 100_000_000;

/// Time without food after which new food appears, in nanoseconds.
pub const FOOD_DELAY: u64 = 500_000_000;

/// Time a finished game stays on screen before the next begins, in nanoseconds.
pub const RESTART_TIME: u64 = 500_000_000;

pub const SNAKE_START_X: u32 = 2;

pub const SNAKE_START_Y: u32 = 2;

pub const SNAKE_START_LEN: u32 = 5;

pub const SNAKE_START_DIR: Direction = Direction::Right;

/// Number of random cells tried for new food before the board is searched
/// cell by cell.
pub const FOOD_DRAWS: u32 = 1000;

/// The keys the game knows, and one value for every other key.
#[derive(PartialEq, Eq, Structural, Copy, Clone, Debug)]
pub enum Key {
    Up,
    Down,
    Left,
    Right,
    W,
    A,
    S,
    D,
    Other,
}

impl Key {
    /// The heading a key asks for: the arrow keys and W, A, S, D name the
    /// four headings, other keys none.
    pub open spec fn direction(self) -> Option<Direction> {
        match self {
            Key::Up | Key::W => Some(Direction::Up),
            Key::Down | Key::S => Some(Direction::Down),
            Key::Left | Key::A => Some(Direction::Left),
            Key::Right | Key::D => Some(Direction::Right),
            Key::Other => None,
        }
    }
}

/// Elapsed time added to a timer; the sum stops at the largest value.
pub open spec fn add_time(timer: u64, delta: u64) -> u64 {
    if timer + delta > u64::MAX {
        u64::MAX
    } else {
        (timer + delta) as u64
    }
}

/// The snake every game begins with.
pub open spec fn fresh_snake() -> SnakeView {
    SnakeView::start(
        Block { x: SNAKE_START_X, y: SNAKE_START_Y },
        SNAKE_START_LEN as nat,
        SNAKE_START_DIR,
    )
}

/// Whether food may appear on `cell`: it lies in the playable rectangle off
/// its far edges, at offsets `1 .. width - 1` and `1 .. height - 1`, and no
/// part of the snake but the head is there.
pub open spec fn food_cell_ok(snake: SnakeView, rect: Rectangle, cell: Block) -> bool {
    &&& 1 <= cell.x < rect.width
    &&& 1 <= cell.y < rect.height
    &&& !snake.collides_tail(cell)
}

/// What a search for a food cell may give: a cell that food may appear on,
/// or nothing, and nothing only if there is no such cell.
pub open spec fn spawn_ok(snake: SnakeView, rect: Rectangle, spawn: Option<Block>) -> bool {
    match spawn {
        Some(cell) => food_cell_ok(snake, rect, cell),
        None => forall|cell: Block| !#[trigger] food_cell_ok(snake, rect, cell),
    }
}

/// The state of a game.
pub struct GameView {
    pub snake: SnakeView,
    pub food: Option<Block>,
    pub window_rect: Rectangle,
    pub game_rect: Rectangle,
    pub game_over: bool,
    pub pending_change: bool,
    pub waiting_time: u64,
    pub food_time: u64,
}

impl GameView {
    /// A new game on a board of `width` by `height` cells: the playable
    /// rectangle is the board without its one-cell border.
    pub open spec fn start(width: u32, height: u32) -> GameView {
        GameView {
            snake: fresh_snake(),
            food: None,
            window_rect: Rectangle { x: 0, y: 0, width, height },
            game_rect: Rectangle {
                x: 1,
                y: 1,
                width: (width - 2) as u32,
                height: (height - 2) as u32,
            },
            game_over: false,
            pending_change: false,
            waiting_time: 0,
            food_time: FOOD_DELAY,
        }
    }

    /// A game that can be played: the playable rectangle is the window without
    /// its border and has room for food, the snake lies in it without
    /// crossing itself, and its target length is at least the starting length
    /// and at most `SNAKE_START_LEN - 1` ahead of its body. Food, if there is
    /// any, lies where food may appear. The board is small enough for the
    /// length of a snake that fills it to fit the length's type.
    pub open spec fn wf(self) -> bool {
        &&& self.snake.wf()
        &&& self.window_rect.x == 0 && self.window_rect.y == 0
        &&& self.game_rect.x == 1 && self.game_rect.y == 1
        &&& self.game_rect.width >= 2 && self.game_rect.height >= 2
        &&& self.window_rect.width == self.game_rect.width + 2
        &&& self.window_rect.height == self.game_rect.height + 2
        &&& self.game_rect.width * self.game_rect.height + SNAKE_START_LEN <= u32::MAX
        &&& forall|i: int|
            0 <= i < self.snake.body.len() ==> self.game_rect.holds(#[trigger] self.snake.body[i])
        &&& self.snake.body.no_duplicates()
        &&& SNAKE_START_LEN <= self.snake.target_len
        &&& self.snake.target_len <= self.snake.body.len() + SNAKE_START_LEN - 1
        &&& self.food matches Some(cell) ==> 1 <= cell.x < self.game_rect.width && 1 <= cell.y
            < self.game_rect.height
    }

    /// Whether the snake survives a step: its next head lies in the playable
    /// rectangle and on no cell of its tail.
    pub open spec fn snake_alive(self, dir: Option<Direction>) -> bool {
        &&& self.game_rect.holds(self.snake.next_head(dir))
        &&& !self.snake.collides_tail(self.snake.next_head(dir))
    }

    /// Whether the head is on the food.
    pub open spec fn snake_eating(self) -> bool {
        self.food == Some(self.snake.head())
    }

    /// One step of the simulation. The pending change is cleared. A snake
    /// that survives the step moves, and if that puts its head on the food
    /// it grows and the food is gone. Otherwise the game is over and the
    /// snake stays where it is.
    pub open spec fn update_snake(self, dir: Option<Direction>) -> GameView {
        if self.snake_alive(dir) {
            let moved = GameView {
                snake: self.snake.move_fwd(dir),
                pending_change: false,
                ..self
            };
            if moved.snake_eating() {
                GameView { snake: moved.snake.grow(), food: None, ..moved }
            } else {
                moved
            }
        } else {
            GameView { pending_change: false, game_over: true, ..self }
        }
    }

    /// A key press. It counts only in a running game with no change pending,
    /// for a key that names a heading other than the reverse of the current
    /// one: then the heading changes and a change is pending.
    pub open spec fn key_pressed(self, key: Key) -> GameView {
        if self.game_over || self.pending_change {
            self
        } else {
            match key.direction() {
                Some(d) => if d == self.snake.direction.spec_opposite() {
                    self
                } else {
                    GameView { snake: self.snake.set_direction(d), pending_change: true, ..self }
                },
                None => self,
            }
        }
    }

    /// The state after a food search that gave `spawn`.
    pub open spec fn new_food(self, spawn: Option<Block>) -> GameView {
        GameView { food_time: 0, food: spawn, ..self }
    }

    /// A new game on the same board, with the food that a search gave.
    pub open spec fn restart(self, spawn: Option<Block>) -> GameView {
        GameView {
            snake: fresh_snake(),
            game_over: false,
            pending_change: false,
            waiting_time: 0,
            food: spawn,
            ..self
        }
    }

    /// Whether a finished game starts anew once `delta_time` has passed.
    pub open spec fn restart_due(self, delta_time: u64) -> bool {
        self.game_over && add_time(self.waiting_time, delta_time) >= RESTART_TIME
    }

    /// Whether a running game looks for new food once `delta_time` has passed.
    pub open spec fn food_due(self, delta_time: u64) -> bool {
        !self.game_over && self.food is None && add_time(self.food_time, delta_time) > FOOD_DELAY
    }

    /// Whether `spawn` is a possible outcome of the food search that `update`
    /// makes once `delta_time` has passed: a search on restart is made for
    /// the fresh snake, one in a running game for the snake as it lies.
    /// Where `update` makes no search, `spawn` plays no part.
    pub open spec fn admits(self, delta_time: u64, spawn: Option<Block>) -> bool {
        if self.restart_due(delta_time) {
            spawn_ok(fresh_snake(), self.game_rect, spawn)
        } else if self.food_due(delta_time) {
            spawn_ok(self.snake, self.game_rect, spawn)
        } else {
            true
        }
    }

    /// The state after `delta_time` has passed, where `spawn` is what the
    /// food search gave if one was made.
    ///
    /// A finished game waits, and starts anew once it has waited
    /// `RESTART_TIME`. A running game without food counts the time without
    /// it and looks for food once that is more than `FOOD_DELAY`; then, once
    /// it has waited more than `MOVE_DELAY`, it makes one step and waits
    /// anew.
    pub open spec fn update(self, delta_time: u64, spawn: Option<Block>) -> GameView {
        let waited = GameView { waiting_time: add_time(self.waiting_time, delta_time), ..self };
        if self.game_over {
            if waited.waiting_time >= RESTART_TIME {
                waited.restart(spawn)
            } else {
                waited
            }
        } else {
            let fed = if waited.food is None {
                let hungry = GameView {
                    food_time: add_time(waited.food_time, delta_time),
                    ..waited
                };
                if hungry.food_time > FOOD_DELAY {
                    hungry.new_food(spawn)
                } else {
                    hungry
                }
            } else {
                waited
            };
            if fed.waiting_time > MOVE_DELAY {
                (GameView { waiting_time: 0, ..fed }).update_snake(None)
            } else {
                fed
            }
        }
    }

    /// What to paint, bottom layer first: the game-over overlay over the
    /// whole window if the game is over, the playable rectangle, the food if
    /// there is any, and the snake from head to tail.
    pub open spec fn shapes(self) -> Seq<Shape> {
        let overlay = if self.game_over {
            seq![self.window_rect.shape(Paint::GameOver)]
        } else {
            Seq::empty()
        };
        let food = match self.food {
            Some(cell) => seq![cell.shape(Paint::Food)],
            None => Seq::empty(),
        };
        overlay + seq![self.game_rect.shape(Paint::Board)] + food + self.snake.shapes()
    }
}

pub struct Game {
    snake: Snake,
    food: Option<Block>,
    window_rect: Rectangle,
    game_rect: Rectangle,
    game_over: bool,
    pending_change: bool,
    waiting_time: u64,
    food_time: u64,
}

impl View for Game {
    type V = GameView;

    closed spec fn view(&self) -> GameView {
        GameView {
            snake: self.snake@,
            food: self.food,
            window_rect: self.window_rect,
            game_rect: self.game_rect,
            game_over: self.game_over,
            pending_change: self.pending_change,
            waiting_time: self.waiting_time,
            food_time: self.food_time,
        }
    }
}

/// The place of a cell of `rect` when its cells are counted column by column.
spec fn cell_index(rect: Rectangle, cell: Block) -> int {
    (cell.x - rect.x) * rect.height + (cell.y - rect.y)
}

/// Cells that differ have different places, and every place is below the
/// number of cells.
proof fn lemma_cell_index(rect: Rectangle, a: Block, b: Block)
    requires
        rect.holds(a),
        rect.holds(b),
    ensures
        0 <= cell_index(rect, a) < rect.width * rect.height,
        cell_index(rect, a) == cell_index(rect, b) ==> a == b,
{
    let h = rect.height as int;
    let w = rect.width as int;
    let ax = a.x - rect.x;
    let ay = a.y - rect.y;
    let bx = b.x - rect.x;
    let by = b.y - rect.y;
    assert(0 <= ax * h + ay < w * h) by (nonlinear_arith)
        requires
            0 <= ax < w,
            0 <= ay < h,
    ;
    assert(ax * h + ay == bx * h + by ==> ax == bx) by (nonlinear_arith)
        requires
            0 <= ay < h,
            0 <= by < h,
    ;
}

/// A body that lies in a rectangle without crossing itself has no more
/// cells than the rectangle.
pub proof fn lemma_body_fits(body: Seq<Block>, rect: Rectangle)
    requires
        body.no_duplicates(),
        forall|i: int| 0 <= i < body.len() ==> rect.holds(#[trigger] body[i]),
    ensures
        body.len() <= rect.width * rect.height,
{
    let cells = body.to_set();
    let place = |cell: Block| cell_index(rect, cell);
    let places = cells.map(place);
    let all = vstd::set_lib::set_int_range(0, rect.width * rect.height);
    body.unique_seq_to_set();
    vstd::seq_lib::seq_to_set_is_finite(body);
    assert forall|a: Block, b: Block|
        cells.contains(a) && cells.contains(b) && #[trigger] place(a) == #[trigger] place(
            b,
        ) implies a == b by {
        let i = choose|i: int| 0 <= i < body.len() && body[i] == a;
        let j = choose|j: int| 0 <= j < body.len() && body[j] == b;
        assert(rect.holds(body[i]) && rect.holds(body[j]));
        lemma_cell_index(rect, a, b);
    }
    vstd::set_lib::lemma_map_size(cells, places, place);
    assert(rect.width * rect.height >= 0) by (nonlinear_arith);
    vstd::set_lib::lemma_int_range(0, rect.width * rect.height);
    assert forall|n: int| places.contains(n) implies all.contains(n) by {
        let a = choose|a: Block| cells.contains(a) && n == place(a);
        let i = choose|i: int| 0 <= i < body.len() && body[i] == a;
        assert(rect.holds(body[i]));
        lemma_cell_index(rect, a, a);
    }
    vstd::set_lib::lemma_len_subset(places, all);
}

/// A step of a playable game leaves a playable game.
pub proof fn lemma_update_snake_wf(game: GameView, dir: Option<Direction>)
    requires
        game.wf(),
    ensures
        game.update_snake(dir).wf(),
        game.snake.can_advance(dir),
{
    let head = game.snake.head();
    assert(game.game_rect.holds(game.snake.body[0]));
    if game.snake_alive(dir) {
        let next = game.snake.next_head(dir);
        let longer = seq![next] + game.snake.body;
        assert forall|i: int| 0 <= i < game.snake.body.len() implies game.snake.body[i]
            != next by {
            if game.snake.body[i] == next {
                assert(game.snake.body[i] != head);
            }
        }
        assert(forall|i: int| 1 <= i < longer.len() ==> longer[i] == game.snake.body[i - 1]);
        assert(longer.no_duplicates());
        assert(forall|i: int| 0 <= i < longer.len() ==> game.game_rect.holds(#[trigger] longer[i]));
    }
}

/// A board gives a playable game exactly when each side has at least four
/// cells and the playable cells, with the starting length added, can be
/// counted in 32 bits.
pub proof fn lemma_start_wf(width: u32, height: u32)
    requires
        width >= 2,
        height >= 2,
    ensures
        GameView::start(width, height).wf() <==> width >= 4 && height >= 4 && (width - 2) * (height
            - 2) + SNAKE_START_LEN <= u32::MAX,
{
    let game = GameView::start(width, height);
    assert(game.snake.body =~= seq![Block { x: SNAKE_START_X, y: SNAKE_START_Y }]);
    assert(game.snake.body[0] == Block { x: SNAKE_START_X, y: SNAKE_START_Y });
}

/// Food appears only inside the playable rectangle and never on the tail.
pub proof fn law_food_appears_on_free_cells(game: GameView, cell: Block)
    requires
        game.wf(),
        food_cell_ok(game.snake, game.game_rect, cell),
    ensures
        game.game_rect.holds(cell),
        !game.snake.collides_tail(cell),
{
}

/// A new game has food from the start: where the snake is a single cell no
/// cell collides with it, so a search on a playable board finds a cell.
pub proof fn lemma_fresh_spawn(rect: Rectangle, spawn: Option<Block>)
    requires
        rect.width >= 2,
        rect.height >= 2,
        spawn_ok(fresh_snake(), rect, spawn),
    ensures
        spawn is Some,
{
    assert(food_cell_ok(fresh_snake(), rect, Block { x: 1, y: 1 }));
}

/// A key that asks for the reverse of the current heading changes nothing:
/// the heading stays and no change is pending because of it.
pub proof fn law_reverse_key_is_ignored(game: GameView, key: Key)
    requires
        key.direction() == Some(game.snake.direction.spec_opposite()),
    ensures
        game.key_pressed(key) == game,
{
}

/// At most one change of heading is taken between two steps: while a change
/// is pending every key is ignored, and a step clears the pending change.
pub proof fn law_one_change_per_step(game: GameView, first: Key, second: Key, dir: Option<Direction>)
    ensures
        game.key_pressed(first).pending_change ==> game.key_pressed(first).key_pressed(second)
            == game.key_pressed(first),
        !game.update_snake(dir).pending_change,
{
}

/// A step whose next head lies outside the playable rectangle, or on the
/// tail, ends the game and moves nothing.
pub proof fn law_collision_ends_game(game: GameView, dir: Option<Direction>)
    requires
        !game.game_rect.holds(game.snake.next_head(dir)) || game.snake.collides_tail(
            game.snake.next_head(dir),
        ),
    ensures
        game.update_snake(dir).game_over,
        game.update_snake(dir).snake == game.snake,
        game.update_snake(dir).food == game.food,
{
}

/// Once a finished game has waited `RESTART_TIME`, the next update gives a
/// new game on the same board: the fresh snake, food already present, and
/// nothing pending.
pub proof fn law_restart_after_delay(game: GameView, delta_time: u64, spawn: Option<Block>)
    requires
        game.wf(),
        game.game_over,
        add_time(game.waiting_time, delta_time) >= RESTART_TIME,
        game.admits(delta_time, spawn),
    ensures
        game.update(delta_time, spawn).snake == fresh_snake(),
        game.update(delta_time, spawn).food is Some,
        !game.update(delta_time, spawn).game_over,
        !game.update(delta_time, spawn).pending_change,
        game.update(delta_time, spawn).waiting_time == 0,
        game.update(delta_time, spawn).game_rect == game.game_rect,
        game.update(delta_time, spawn).window_rect == game.window_rect,
{
    lemma_fresh_spawn(game.game_rect, spawn);
}

/// A finished game stays as it is, but for the time it has waited, until it
/// has waited `RESTART_TIME`.
pub proof fn law_finished_game_waits(game: GameView, delta_time: u64, spawn: Option<Block>)
    requires
        game.game_over,
        add_time(game.waiting_time, delta_time) < RESTART_TIME,
    ensures
        game.update(delta_time, spawn) == (GameView {
            waiting_time: add_time(game.waiting_time, delta_time),
            ..game
        }),
{
}

/// Whatever a possible food search gives, an update of a playable game
/// leaves a playable game, in which the body is no longer than its target
/// length.
pub proof fn law_update_keeps_playable(game: GameView, delta_time: u64, spawn: Option<Block>)
    requires
        game.wf(),
        game.admits(delta_time, spawn),
    ensures
        game.update(delta_time, spawn).wf(),
        game.update(delta_time, spawn).snake.body.len() <= game.update(
            delta_time,
            spawn,
        ).snake.target_len,
{
    let waited = GameView { waiting_time: add_time(game.waiting_time, delta_time), ..game };
    if game.game_over {
        assert(fresh_snake().body[0] == Block { x: SNAKE_START_X, y: SNAKE_START_Y });
    } else {
        let fed = if waited.food is None {
            let hungry = GameView { food_time: add_time(waited.food_time, delta_time), ..waited };
            if hungry.food_time > FOOD_DELAY {
                hungry.new_food(spawn)
            } else {
                hungry
            }
        } else {
            waited
        };
        if fed.waiting_time > MOVE_DELAY {
            lemma_update_snake_wf(GameView { waiting_time: 0, ..fed }, None);
        }
    }
}

impl Game {
    /// Whether a board of `width` by `height` cells gives a playable game.
    pub fn fits(width: u32, height: u32) -> (ok: bool)
        ensures
            ok <==> width >= 4 && height >= 4 && (width - 2) * (height - 2) + SNAKE_START_LEN
                <= u32::MAX,
            width >= 2 && height >= 2 ==> (ok <==> GameView::start(width, height).wf()),
    {
        proof {
            if width >= 2 && height >= 2 {
                lemma_start_wf(width, height);
            }
        }
        if width < 4 || height < 4 {
            return false;
        }
        let inner_width: u64 = (width - 2) as u64;
        let inner_height: u64 = (height - 2) as u64;
        assert(inner_width * inner_height <= 0xffff_ffff * 0xffff_ffff) by (nonlinear_arith)
            requires
                inner_width <= 0xffff_ffff,
                inner_height <= 0xffff_ffff,
        ;
        let cells: u64 = inner_width * inner_height;
        cells + SNAKE_START_LEN as u64 <= u32::MAX as u64
    }

    pub fn new(width: u32, height: u32) -> (game: Game)
        requires
            width >= 2,
            height >= 2,
        ensures
            game@ == GameView::start(width, height),
            game@.wf() <==> width >= 4 && height >= 4 && (width - 2) * (height - 2)
                + SNAKE_START_LEN <= u32::MAX,
    {
        proof {
            lemma_start_wf(width, height);
        }
        Game {
            snake: Snake::new(SNAKE_START_X, SNAKE_START_Y, SNAKE_START_LEN, SNAKE_START_DIR),
            food: None,
            window_rect: Rectangle::new(0, 0, width, height),
            game_rect: Rectangle::new(1, 1, width - 2, height - 2),
            game_over: false,
            pending_change: false,
            waiting_time: 0,
            food_time: FOOD_DELAY,
        }
    }

    pub fn snake(&self) -> (snake: &Snake)
        ensures
            snake@ == self@.snake,
    {
        &self.snake
    }

    pub fn food(&self) -> (food: Option<Block>)
        ensures
            food == self@.food,
    {
        self.food
    }

    pub fn window_rect(&self) -> (rect: Rectangle)
        ensures
            rect == self@.window_rect,
    {
        self.window_rect
    }

    pub fn game_rect(&self) -> (rect: Rectangle)
        ensures
            rect == self@.game_rect,
    {
        self.game_rect
    }

    pub fn is_over(&self) -> (over: bool)
        ensures
            over == self@.game_over,
    {
        self.game_over
    }

    pub fn has_pending_change(&self) -> (pending: bool)
        ensures
            pending == self@.pending_change,
    {
        self.pending_change
    }

    pub fn waiting_time(&self) -> (time: u64)
        ensures
            time == self@.waiting_time,
    {
        self.waiting_time
    }

    pub fn food_time(&self) -> (time: u64)
        ensures
            time == self@.food_time,
    {
        self.food_time
    }

    /// Lets `delta_time` nanoseconds pass.
    pub fn update(&mut self, delta_time: u64)
        requires
            old(self)@.wf(),
        ensures
            final(self)@.wf(),
            exists|spawn: Option<Block>|
                old(self)@.admits(delta_time, spawn) && final(self)@ == #[trigger] old(
                    self,
                )@.update(delta_time, spawn),
            old(self)@.restart_due(delta_time) ==> final(self)@.food is Some,
    {
        let ghost mut spawn: Option<Block> = None;
        self.waiting_time = self.waiting_time.saturating_add(delta_time);
        if self.game_over {
            if self.waiting_time >= RESTART_TIME {
                self.restart();
                proof {
                    spawn = self@.food;
                }
            }
        } else {
            if self.food.is_none() {
                self.food_time = self.food_time.saturating_add(delta_time);
                if self.food_time > FOOD_DELAY {
                    self.new_food();
                    proof {
                        spawn = self@.food;
                    }
                }
            }
            if self.waiting_time > MOVE_DELAY {
                self.waiting_time = 0;
                self.update_snake(None);
            }
        }
        assert(old(self)@.admits(delta_time, spawn));
        assert(self@ == old(self)@.update(delta_time, spawn));
    }

    /// What to paint, bottom layer first.
    pub fn draw(&self) -> (shapes: Vec<Shape>)
        ensures
            shapes@ == self@.shapes(),
    {
        let mut shapes: Vec<Shape> = Vec::new();
        if self.game_over {
            shapes.push(self.window_rect.draw(Paint::GameOver));
        }
        shapes.push(self.game_rect.draw(Paint::Board));
        if let Some(food) = self.food {
            shapes.push(food.draw(Paint::Food));
        }
        let mut body = self.snake.draw();
        shapes.append(&mut body);
        assert(shapes@ =~= self@.shapes());
        shapes
    }

    pub fn key_pressed(&mut self, key: Key)
        ensures
            final(self)@ == old(self)@.key_pressed(key),
            old(self)@.wf() ==> final(self)@.wf(),
    {
        if self.game_over || self.pending_change {
            return ;
        }
        let dir = match key {
            Key::Up => Some(Direction::Up),
            Key::Down => Some(Direction::Down),
            Key::Left => Some(Direction::Left),
            Key::Right => Some(Direction::Right),
            Key::W => Some(Direction::Up),
            Key::S => Some(Direction::Down),
            Key::A => Some(Direction::Left),
            Key::D => Some(Direction::Right),
            _ => None,
        };
        if let Some(d) = dir {
            if d == self.snake.direction().opposite() {
                return ;
            } else {
                self.snake.set_direction(d);
                self.pending_change = true;
            }
        }
    }

    /// Looks for a cell for new food: random cells first, `FOOD_DRAWS` of
    /// them at most, then the cells in order. It gives nothing only if food
    /// may appear on no cell.
    pub fn gen_food(&self) -> (spawn: Option<Block>)
        requires
            self@.snake.wf(),
        ensures
            spawn_ok(self@.snake, self@.game_rect, spawn),
    {
        let width: u32 = self.game_rect.width;
        let height: u32 = self.game_rect.height;
        if width < 2 || height < 2 {
            return None;
        }
        let mut rng = thread_rng();
        let mut draws: u32 = 0;
        while draws < FOOD_DRAWS
            invariant
                self@.snake.wf(),
                width == self@.game_rect.width,
                height == self@.game_rect.height,
                width >= 2,
                height >= 2,
            decreases FOOD_DRAWS - draws,
        {
            let x: u32 = gen_range(&mut rng, 1, width);
            let y: u32 = gen_range(&mut rng, 1, height);
            let block = Block::new(x, y);
            if !self.snake.check_collide_tail(&block) {
                return Some(block);
            }
            draws += 1;
        }
        self.first_free_cell()
    }

    /// The first cell in column order that food may appear on, if there is one.
    pub fn first_free_cell(&self) -> (spawn: Option<Block>)
        requires
            self@.snake.wf(),
        ensures
            spawn_ok(self@.snake, self@.game_rect, spawn),
            spawn matches Some(cell) ==> forall|other: Block| #[trigger]
                food_cell_ok(self@.snake, self@.game_rect, other) ==> cell.x < other.x || (cell.x
                    == other.x && cell.y <= other.y),
    {
        let width: u32 = self.game_rect.width;
        let height: u32 = self.game_rect.height;
        let mut x: u32 = 1;
        while x < width
            invariant
                self@.snake.wf(),
                width == self@.game_rect.width,
                height == self@.game_rect.height,
                1 <= x,
                forall|cell: Block| #[trigger]
                    food_cell_ok(self@.snake, self@.game_rect, cell) ==> x <= cell.x,
            decreases width - x,
        {
            let mut y: u32 = 1;
            while y < height
                invariant
                    self@.snake.wf(),
                    width == self@.game_rect.width,
                    height == self@.game_rect.height,
                    1 <= x < width,
                    1 <= y,
                    forall|cell: Block| #[trigger]
                        food_cell_ok(self@.snake, self@.game_rect, cell) ==> x < cell.x || (x
                            == cell.x && y <= cell.y),
                decreases height - y,
            {
                let block = Block::new(x, y);
                if !self.snake.check_collide_tail(&block) {
                    return Some(block);
                }
                y += 1;
            }
            x += 1;
        }
        None
    }

    pub fn snake_alive(&self, dir: Option<Direction>) -> (alive: bool)
        requires
            self@.wf(),
        ensures
            alive == self@.snake_alive(dir),
    {
        proof {
            lemma_update_snake_wf(self@, dir);
        }
        let next_head = self.snake.next_head(dir);
        self.game_rect.contains(&next_head) && !self.snake.check_collide_tail(&next_head)
    }

    /// Looks for new food and starts the time without food anew.
    pub fn new_food(&mut self)
        requires
            old(self)@.snake.wf(),
        ensures
            final(self)@ == old(self)@.new_food(final(self)@.food),
            spawn_ok(old(self)@.snake, old(self)@.game_rect, final(self)@.food),
            old(self)@.wf() ==> final(self)@.wf(),
    {
        self.food_time = 0;
        self.food = self.gen_food();
    }

    pub fn snake_eating(&self) -> (eating: bool)
        requires
            self@.snake.wf(),
        ensures
            eating == self@.snake_eating(),
    {
        if let Some(food) = self.food {
            food == *self.snake.head()
        } else {
            false
        }
    }

    /// One step of the simulation, with an optional heading for it.
    pub fn update_snake(&mut self, dir: Option<Direction>)
        requires
            old(self)@.wf(),
        ensures
            final(self)@ == old(self)@.update_snake(dir),
            final(self)@.wf(),
    {
        proof {
            lemma_update_snake_wf(self@, dir);
        }
        self.pending_change = false;
        if self.snake_alive(dir) {
            self.snake.move_fwd(dir);
            if self.snake_eating() {
                proof {
                    lemma_body_fits(self@.snake.body, self@.game_rect);
                }
                self.snake.grow();
                self.food = None;
            }
        } else {
            self.game_over = true;
        }
    }

    /// Starts a new game on the same board, with food from the start.
    pub fn restart(&mut self)
        requires
            old(self)@.wf(),
        ensures
            final(self)@ == old(self)@.restart(final(self)@.food),
            spawn_ok(fresh_snake(), old(self)@.game_rect, final(self)@.food),
            final(self)@.food is Some,
            final(self)@.wf(),
    {
        self.snake = Snake::new(SNAKE_START_X, SNAKE_START_Y, SNAKE_START_LEN, SNAKE_START_DIR);
        self.game_over = false;
        self.pending_change = false;
        self.waiting_time = 0;
        self.food = self.gen_food();
        proof {
            lemma_fresh_spawn(self@.game_rect, self@.food);
            assert(self@.snake.body[0] == Block { x: SNAKE_START_X, y: SNAKE_START_Y });
        }
    }
}

} // verus!
