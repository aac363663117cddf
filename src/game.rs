use crate::characters::Characters;
use crate::coordinate::{in_field, Coordinate};
use crate::entity_manager::{apple_cells, EntityManager};
use crate::entity_type::{apple_at, obstacle_at, slowdown_at, supersnake_at, EntityType};
use crate::game_state::{GameOverReason, GameState};
use crate::powerup::{PowerupType, SLOWDOWN_DURATION, SUPERSNAKE_DURATION};
use crate::snake::{advance, can_step, stepped, SnakeDirection, SnakeError};
use vstd::prelude::*;

verus! {

/// The smallest playfield side: the corner obstacles need eight cells.
pub const MIN_PLAYFIELD: usize = 8;

/// A Supersnake power-up appears each time the score reaches a multiple of this.
pub const SUPERSNAKE_PERIOD: u64 = 25;

/// A Slowdown power-up appears each time the score reaches a multiple of this.
pub const SLOWDOWN_PERIOD: u64 = 15;

/// Apples are added while fewer than this many lie on the playfield.
pub const MIN_APPLES: usize = 3;

/// Milliseconds between ticks at score zero.
pub const BASE_TICK_SPEED: u64 = 200;

/// The interval between ticks once the score has passed the base interval.
pub const MIN_TICK_SPEED: u64 = 1;

/// Milliseconds added to the interval while a Slowdown power-up is active.
pub const SLOWDOWN_DELAY: u64 = 50;

/// The abstract state of a game.
pub struct GameView {
    pub entities: Map<Coordinate, EntityType>,
    /// Tail first, head last.
    pub snake: Seq<Coordinate>,
    pub score: u64,
    pub playfield_x: usize,
    pub playfield_y: usize,
    /// The direction the snake moved in on the last tick.
    pub direction: SnakeDirection,
    /// Directions asked for and not yet taken, oldest first.
    pub queue: Seq<SnakeDirection>,
    pub state: GameState,
    pub powerup: PowerupType,
}

/// The obstacles' cells: an L of five cells near each corner, five cells in
/// from the walls.
pub open spec fn obstacle_layout(px: usize, py: usize) -> Seq<Coordinate> {
    let r = (px - 6) as usize;
    let b = (py - 6) as usize;
    seq![
        Coordinate { x: 5, y: 5 },
        Coordinate { x: 5, y: 6 },
        Coordinate { x: 5, y: 7 },
        Coordinate { x: 6, y: 5 },
        Coordinate { x: 7, y: 5 },
        Coordinate { x: r, y: 5 },
        Coordinate { x: r, y: 6 },
        Coordinate { x: r, y: 7 },
        Coordinate { x: (r - 1) as usize, y: 5 },
        Coordinate { x: (r - 2) as usize, y: 5 },
        Coordinate { x: 5, y: b },
        Coordinate { x: 5, y: (b - 1) as usize },
        Coordinate { x: 5, y: (b - 2) as usize },
        Coordinate { x: 6, y: b },
        Coordinate { x: 7, y: b },
        Coordinate { x: r, y: b },
        Coordinate { x: r, y: (b - 1) as usize },
        Coordinate { x: r, y: (b - 2) as usize },
        Coordinate { x: (r - 1) as usize, y: b },
        Coordinate { x: (r - 2) as usize, y: b },
    ]
}

/// `m` with an obstacle on every cell of the layout, over whatever stood there.
pub open spec fn with_obstacles(m: Map<Coordinate, EntityType>, px: usize, py: usize) -> Map<
    Coordinate,
    EntityType,
> {
    m.union_prefer_right(
        Map::new(|c: Coordinate| obstacle_layout(px, py).contains(c), |c: Coordinate| obstacle_at(c)),
    )
}

pub open spec fn supersnake_due(score: u64) -> bool {
    score % SUPERSNAKE_PERIOD == 0 && score > 0
}

pub open spec fn slowdown_due(score: u64) -> bool {
    score % SLOWDOWN_PERIOD == 0 && score > 0
}

impl GameView {
    pub open spec fn initial(playfield_x: usize, playfield_y: usize) -> GameView {
        GameView {
            entities: Map::empty(),
            snake: seq![Coordinate { x: 0, y: 0 }],
            score: 0,
            playfield_x,
            playfield_y,
            direction: SnakeDirection::Right,
            queue: seq![SnakeDirection::Right],
            state: GameState::Intro,
            powerup: PowerupType::Inactive,
        }
    }

    pub open spec fn wf(self) -> bool {
        &&& self.playfield_x >= MIN_PLAYFIELD
        &&& self.playfield_y >= MIN_PLAYFIELD
        &&& self.snake.len() >= 1
        &&& forall|i: int|
            0 <= i < self.snake.len() ==> in_field(
                #[trigger] self.snake[i],
                self.playfield_x as int,
                self.playfield_y as int,
            )
        &&& self.powerup.wf()
        &&& self.entities.dom().finite()
        &&& forall|c: Coordinate| #[trigger]
            self.entities.contains_key(c) ==> self.entities[c].cell() == c && in_field(
                c,
                self.playfield_x as int,
                self.playfield_y as int,
            )
    }

    pub open spec fn head(self) -> Coordinate {
        self.snake.last()
    }

    pub open spec fn ended(self, reason: GameOverReason) -> GameView {
        GameView { state: GameState::GameOver { score: self.score, reason }, ..self }
    }

    /// The cell is free for a new entity: in the field, off the snake and empty.
    pub open spec fn free(self, c: Coordinate) -> bool {
        &&& in_field(c, self.playfield_x as int, self.playfield_y as int)
        &&& !self.snake.contains(c)
        &&& !self.entities.contains_key(c)
    }

    /// The first step of a tick: the oldest queued direction is taken,
    /// unless it turns the snake straight back.
    pub open spec fn with_direction_applied(self) -> GameView {
        if self.queue.len() > 0 {
            let d = self.queue[0];
            GameView {
                queue: self.queue.drop_first(),
                direction: if d == self.direction.reverse() {
                    self.direction
                } else {
                    d
                },
                ..self
            }
        } else {
            self
        }
    }

    /// The head moved one step, or the game lost on a wall or on the snake itself.
    pub open spec fn moved(self) -> GameView {
        let h = self.head();
        let d = self.direction;
        if !can_step(h, d, self.playfield_x as int, self.playfield_y as int) {
            self.ended(GameOverReason::HitWall)
        } else if self.snake.contains(stepped(h, d)) && !(self.powerup is Supersnake) {
            GameView { snake: self.snake.push(stepped(h, d)), ..self }.ended(
                GameOverReason::AteItself,
            )
        } else {
            GameView { snake: self.snake.push(stepped(h, d)), ..self }
        }
    }

    /// What the entity under the head does to the game; without one, or on
    /// an obstacle while invincible, the tail follows the head.
    pub open spec fn after_eating(self) -> GameView {
        let h = self.head();
        if self.entities.contains_key(h) {
            match self.entities[h] {
                EntityType::SupersnakePwrup { .. } => GameView {
                    entities: self.entities.remove(h),
                    powerup: PowerupType::Supersnake { tick_duration: SUPERSNAKE_DURATION },
                    ..self
                },
                EntityType::Apple { .. } => GameView {
                    entities: self.entities.remove(h),
                    score: (self.score + 1) as u64,
                    ..self
                },
                EntityType::Obstacle { .. } => if self.powerup is Supersnake {
                    GameView {
                        entities: self.entities.remove(h),
                        snake: self.snake.drop_first(),
                        ..self
                    }
                } else {
                    self.ended(GameOverReason::HitObstacle)
                },
                EntityType::SlowdownPwrup { .. } => GameView {
                    entities: self.entities.remove(h),
                    powerup: PowerupType::Slowdown { tick_duration: SLOWDOWN_DURATION },
                    snake: self.snake.drop_first(),
                    ..self
                },
            }
        } else {
            GameView { snake: self.snake.drop_first(), ..self }
        }
    }

    /// Steps one to five of a tick, which draw nothing at random.
    pub open spec fn before_spawning(self) -> GameView {
        let m = self.with_direction_applied().moved();
        if m.state is Playing {
            GameView { powerup: m.powerup.ticked(), ..m }.after_eating()
        } else {
            m
        }
    }

    /// `w` is `self` with one entity made by `make` put on a free cell when
    /// `wanted` (nothing when no cell is free), and the score raised by one
    /// when `wanted && bump`.
    pub open spec fn spawn_step(
        self,
        w: GameView,
        wanted: bool,
        make: spec_fn(Coordinate) -> EntityType,
        bump: bool,
    ) -> bool {
        &&& w == GameView {
            entities: w.entities,
            score: if wanted && bump {
                (self.score + 1) as u64
            } else {
                self.score
            },
            ..self
        }
        &&& if !wanted {
            w.entities == self.entities
        } else {
            ||| exists|c: Coordinate| #[trigger]
                self.free(c) && w.entities == self.entities.insert(c, make(c))
            ||| (forall|c: Coordinate| !#[trigger] self.free(c)) && w.entities == self.entities
        }
    }

    /// The last step of a tick: power-ups at their score thresholds, an apple
    /// while there are too few, and the obstacles put back.
    pub open spec fn spawned(self, after: GameView) -> bool {
        exists|w1: GameView, w2: GameView, w3: GameView|
            {
                &&& self.spawn_step(w1, supersnake_due(self.score), |c| supersnake_at(c), true)
                &&& w1.spawn_step(w2, slowdown_due(w1.score), |c| slowdown_at(c), true)
                &&& w2.spawn_step(
                    w3,
                    apple_cells(w2.entities).len() < MIN_APPLES,
                    |c| apple_at(c),
                    false,
                )
                &&& after == GameView {
                    entities: with_obstacles(w3.entities, w3.playfield_x, w3.playfield_y),
                    ..w3
                }
            }
    }

    /// `after` is a state that one tick can lead to from `self`.
    pub open spec fn ticked_to(self, after: GameView) -> bool {
        let b = self.before_spawning();
        if b.state is Playing {
            b.spawned(after)
        } else {
            after == b
        }
    }
}

/// The glyph an entity is drawn with.
pub open spec fn entity_glyph(e: EntityType) -> char {
    match e {
        EntityType::SupersnakePwrup { .. } => Characters::SupersnakePwrup.glyph(),
        EntityType::SlowdownPwrup { .. } => Characters::SlowdownPwrup.glyph(),
        EntityType::Apple { .. } => Characters::Apple.glyph(),
        EntityType::Obstacle { .. } => Characters::Obstacle.glyph(),
    }
}

/// The glyph of the snake's body, which shows the active power-up.
pub open spec fn body_glyph(p: PowerupType) -> char {
    match p {
        PowerupType::Supersnake { .. } => Characters::SnakeBodySuper.glyph(),
        PowerupType::Slowdown { .. } => Characters::SnakeBodySlow.glyph(),
        PowerupType::Inactive => Characters::SnakeBody.glyph(),
    }
}

impl GameView {
    /// Milliseconds to wait before the next tick.
    pub open spec fn tick_speed(self) -> u64 {
        if self.powerup is Slowdown {
            (BASE_TICK_SPEED + SLOWDOWN_DELAY) as u64
        } else if self.score <= BASE_TICK_SPEED {
            (BASE_TICK_SPEED - self.score) as u64
        } else {
            MIN_TICK_SPEED
        }
    }

    /// What the cell shows: the head over the body, the body over an entity,
    /// an entity over grass.
    pub open spec fn cell_glyph(self, c: Coordinate) -> char {
        if self.snake.len() > 0 && c == self.head() {
            Characters::SnakeHead.glyph()
        } else if self.snake.drop_last().contains(c) {
            body_glyph(self.powerup)
        } else if self.entities.contains_key(c) {
            entity_glyph(self.entities[c])
        } else {
            Characters::Grass.glyph()
        }
    }
}

/// The game engine: the snake, the entities around it, the score, the
/// power-up and the state machine that a tick drives.
pub struct Game {
    entities: EntityManager<EntityType>,
    snake: Vec<Coordinate>,
    score: u64,
    playfield_x: usize,
    playfield_y: usize,
    current_direction: SnakeDirection,
    next_direction: Vec<SnakeDirection>,
    state: GameState,
    current_powerup: PowerupType,
}

impl View for Game {
    type V = GameView;

    closed spec fn view(&self) -> GameView {
        GameView {
            entities: self.entities@,
            snake: self.snake@,
            score: self.score,
            playfield_x: self.playfield_x,
            playfield_y: self.playfield_y,
            direction: self.current_direction,
            queue: self.next_direction@,
            state: self.state,
            powerup: self.current_powerup,
        }
    }
}

impl Game {
    pub closed spec fn wf(&self) -> bool {
        self.entities.wf() && self@.wf()
    }

    /// A well-formed game has a well-formed view: a non-empty snake inside
    /// the field, a live power-up with ticks left, entities on their cells.
    pub proof fn lemma_view_wf(&self)
        requires
            self.wf(),
        ensures
            self@.wf(),
    {
    }

    /// A game in `Intro` on a `playfield_x` by `playfield_y` field: a snake of
    /// one cell in the top left corner, heading right.
    pub fn new(playfield_x: usize, playfield_y: usize) -> (r: Self)
        requires
            playfield_x >= MIN_PLAYFIELD,
            playfield_y >= MIN_PLAYFIELD,
        ensures
            r.wf(),
            r@ == GameView::initial(playfield_x, playfield_y),
    {
        let r = Self {
            entities: EntityManager::new(),
            snake: vec![Coordinate::new(0, 0)],
            score: 0,
            playfield_x,
            playfield_y,
            current_direction: SnakeDirection::Right,
            next_direction: vec![SnakeDirection::Right],
            state: GameState::Intro,
            current_powerup: PowerupType::Inactive,
        };
        assert(r@.snake =~= seq![Coordinate { x: 0, y: 0 }]);
        assert(r@.queue =~= seq![SnakeDirection::Right]);
        r
    }

    // The snake.

    pub fn get_snake(&self) -> (r: &Vec<Coordinate>)
        ensures
            r@ == self@.snake,
    {
        &self.snake
    }

    pub fn snake_get_head(&self) -> (r: Option<&Coordinate>)
        ensures
            match r {
                Some(h) => self@.snake.len() > 0 && *h == self@.snake.last(),
                None => self@.snake.len() == 0,
            },
    {
        self.snake.last()
    }

    /// Every cell of the snake but the head, tail first.
    pub fn snake_get_body(&self) -> (r: Vec<Coordinate>)
        ensures
            r@ == if self@.snake.len() == 0 {
                Seq::empty()
            } else {
                self@.snake.drop_last()
            },
    {
        let mut r: Vec<Coordinate> = Vec::new();
        if self.snake.len() == 0 {
            return r;
        }
        let n = self.snake.len() - 1;
        let mut i: usize = 0;
        while i < n
            invariant
                n == self.snake@.len() - 1,
                0 <= i <= n,
                r@ == self.snake@.take(i as int),
            decreases self.snake@.len() - i,
        {
            r.push(self.snake[i]);
            i += 1;
            assert(r@ =~= self.snake@.take(i as int));
        }
        assert(r@ =~= self.snake@.drop_last());
        r
    }

    /// The head lies on another cell of the snake.
    pub fn snake_eating_itself(&self) -> (r: bool)
        requires
            self@.snake.len() > 0,
        ensures
            r == self@.snake.drop_last().contains(self@.snake.last()),
    {
        let head = self.snake[self.snake.len() - 1];
        let body = self.snake_get_body();
        head.intersects_multiple(body.as_slice())
    }

    pub fn get_length(&self) -> (r: usize)
        ensures
            r == self@.snake.len(),
    {
        self.snake.len()
    }

    pub fn snake_get_direction(&self) -> (r: SnakeDirection)
        ensures
            r == self@.direction,
    {
        self.current_direction
    }

    /// Queues a direction for a later tick; the tick that takes it ignores it
    /// if it would turn the snake straight back.
    pub fn snake_set_direction(&mut self, direction: SnakeDirection)
        requires
            old(self).wf(),
        ensures
            final(self).wf(),
            final(self)@ == (GameView { queue: old(self)@.queue.push(direction), ..old(self)@ }),
    {
        self.next_direction.push(direction);
    }

    /// Moves the head one cell in the current direction, or fails with
    /// `HitWall` when that cell lies outside `[0, max_x) x [0, max_y)`.
    fn snake_add_head(&mut self, max_x: usize, max_y: usize) -> (r: Result<(), SnakeError>)
        ensures
            match r {
                Ok(()) => {
                    &&& old(self)@.snake.len() > 0
                    &&& can_step(old(self)@.head(), old(self)@.direction, max_x as int, max_y as int)
                    &&& final(self)@ == (GameView {
                        snake: old(self)@.snake.push(stepped(old(self)@.head(), old(self)@.direction)),
                        ..old(self)@
                    })
                },
                Err(SnakeError::NoHead) => old(self)@.snake.len() == 0 && final(self)@ == old(self)@,
                Err(SnakeError::HitWall) => {
                    &&& old(self)@.snake.len() > 0
                    &&& !can_step(old(self)@.head(), old(self)@.direction, max_x as int, max_y as int)
                    &&& final(self)@ == old(self)@
                },
            },
            final(self).entities == old(self).entities,
    {
        let head = match self.snake.last() {
            Some(h) => *h,
            None => return Err(SnakeError::NoHead),
        };
        match advance(&head, self.current_direction, max_x, max_y) {
            Ok(c) => {
                self.snake.push(c);
                Ok(())
            },
            Err(e) => Err(e),
        }
    }

    /// Drops the last cell of the tail, unless the snake is a single cell.
    fn snake_remove_tail(&mut self)
        ensures
            final(self)@ == (GameView {
                snake: if old(self)@.snake.len() > 1 {
                    old(self)@.snake.drop_first()
                } else {
                    old(self)@.snake
                },
                ..old(self)@
            }),
            final(self).entities == old(self).entities,
    {
        if self.snake.len() > 1 {
            self.snake.remove(0);
            assert(self.snake@ =~= old(self).snake@.drop_first());
        }
    }
    // The entities.

    /// Every entity on the playfield, each once, in no particular order.
    pub fn get_all_entities(&self) -> (r: Vec<&EntityType>)
        requires
            self.wf(),
        ensures
            r@.len() == self@.entities.dom().len(),
            forall|i: int|
                0 <= i < r@.len() ==> self@.entities.contains_key((#[trigger] r@[i]).cell())
                    && self@.entities[r@[i].cell()] == *r@[i],
            forall|i: int, j: int|
                0 <= i < r@.len() && 0 <= j < r@.len() && i != j ==> (#[trigger] r@[i]).cell()
                    != (#[trigger] r@[j]).cell(),
            forall|c: Coordinate|
                #[trigger] self@.entities.contains_key(c) ==> exists|i: int|
                    0 <= i < r@.len() && r@[i].cell() == c,
    {
        let all = self.entities.all();
        let mut r: Vec<&EntityType> = Vec::new();
        let mut i: usize = 0;
        while i < all.len()
            invariant
                0 <= i <= all@.len(),
                r@.len() == i,
                forall|j: int| 0 <= j < i ==> *r@[j] == *all@[j].1,
            decreases all@.len() - i,
        {
            r.push(all[i].1);
            i += 1;
        }
        assert forall|j: int| 0 <= j < r@.len() implies (#[trigger] r@[j]).cell() == all@[j].0 by {
            assert(self@.entities.contains_key(all@[j].0));
        }
        assert forall|a: int, b: int|
            0 <= a < r@.len() && 0 <= b < r@.len() && a != b implies (#[trigger] r@[a]).cell()
            != (#[trigger] r@[b]).cell() by {
            assert(r@[a].cell() == all@[a].0);
            assert(r@[b].cell() == all@[b].0);
        }
        assert forall|c: Coordinate| #[trigger] self@.entities.contains_key(c) implies exists|i: int|
            0 <= i < r@.len() && r@[i].cell() == c by {
            let j = choose|j: int| 0 <= j < all@.len() && all@[j].0 == c;
            assert(r@[j].cell() == all@[j].0);
        }
        r
    }

    /// The cells a new entity must not take: the snake's and the entities'.
    fn get_entity_no_go_zones(&self) -> (r: Vec<Coordinate>)
        requires
            self.wf(),
        ensures
            forall|c: Coordinate|
                #[trigger] r@.contains(c) <==> self@.snake.contains(c)
                    || self@.entities.contains_key(c),
    {
        let mut r: Vec<Coordinate> = Vec::new();
        let mut i: usize = 0;
        while i < self.snake.len()
            invariant
                0 <= i <= self.snake@.len(),
                r@ == self.snake@.take(i as int),
            decreases self.snake@.len() - i,
        {
            r.push(self.snake[i]);
            i += 1;
            assert(r@ =~= self.snake@.take(i as int));
        }
        assert(r@ =~= self.snake@);
        let mut keys = self.entities.keys();
        let ghost k = keys@;
        r.append(&mut keys);
        assert(r@ =~= self.snake@ + k);
        assert forall|c: Coordinate|
            #[trigger] r@.contains(c) <==> self@.snake.contains(c)
                || self@.entities.contains_key(c) by {
            let n = self.snake@.len();
            if r@.contains(c) {
                let j = choose|j: int| 0 <= j < r@.len() && r@[j] == c;
                if j >= n {
                    assert(k[j - n] == c);
                    assert(k.contains(c));
                } else {
                    assert(self@.snake[j] == c);
                }
            }
            if self@.snake.contains(c) {
                let j = choose|j: int| 0 <= j < n && self@.snake[j] == c;
                assert(r@[j] == c);
            }
            if self@.entities.contains_key(c) {
                assert(k.contains(c));
                let j = choose|j: int| 0 <= j < k.len() && k[j] == c;
                assert(r@[n + j] == c);
            }
        }
        r
    }

    /// The entity under the snake's head, if any.
    fn snake_on_entity(&self) -> (r: Option<&EntityType>)
        requires
            self.wf(),
        ensures
            match r {
                Some(e) => self@.entities.contains_key(self@.head()) && self@.entities[self@.head()]
                    == *e,
                None => !self@.entities.contains_key(self@.head()),
            },
    {
        let head = self.snake[self.snake.len() - 1];
        self.entities.get_entity(head)
    }

    /// Takes away the entity under the snake's head.
    fn remove_entity(&mut self)
        requires
            old(self).wf(),
        ensures
            final(self).wf(),
            final(self)@ == (GameView {
                entities: old(self)@.entities.remove(old(self)@.head()),
                ..old(self)@
            }),
    {
        let head = self.snake[self.snake.len() - 1];
        self.entities.remove_entity(&head);
        proof {
            self.entities.lemma_finite();
        }
    }

    // The power-up.

    pub fn get_current_powerup(&self) -> (r: &PowerupType)
        ensures
            *r == self@.powerup,
    {
        &self.current_powerup
    }

    /// Gives the snake `powerup`, in place of the one it had.
    pub fn grant_powerup(&mut self, powerup: PowerupType)
        requires
            old(self).wf(),
            powerup.wf(),
        ensures
            final(self).wf(),
            final(self)@ == (GameView { powerup, ..old(self)@ }),
    {
        self.current_powerup = powerup;
    }

    /// Counts one tick off the active power-up, which ends when none is left.
    fn process_active_powerup(&mut self)
        requires
            old(self).wf(),
        ensures
            final(self).wf(),
            final(self)@ == (GameView { powerup: old(self)@.powerup.ticked(), ..old(self)@ }),
    {
        self.current_powerup = self.current_powerup.tick();
    }

    /// Lets the entity under the snake's head act: a power-up is taken, an
    /// apple is eaten and scores, an obstacle ends the game unless the snake
    /// is a Supersnake, in which case it is knocked away. The tail stays on
    /// the tick the snake takes a Supersnake power-up or an apple.
    fn handle_eat_entity(&mut self)
        requires
            old(self).wf(),
            old(self)@.snake.len() >= 2,
            old(self)@.score < u64::MAX,
        ensures
            final(self).wf(),
            final(self)@ == old(self)@.after_eating(),
    {
        match self.snake_on_entity() {
            Some(EntityType::SupersnakePwrup { .. }) => {
                self.remove_entity();
                self.grant_powerup(PowerupType::Supersnake { tick_duration: SUPERSNAKE_DURATION });
            },
            Some(EntityType::Apple { .. }) => {
                self.remove_entity();
                self.score = self.score + 1;
            },
            Some(EntityType::Obstacle { .. }) => {
                if self.current_powerup.is_supersnake() {
                    self.remove_entity();
                    self.snake_remove_tail();
                } else {
                    self.state = GameState::GameOver {
                        score: self.score,
                        reason: GameOverReason::HitObstacle,
                    };
                }
            },
            Some(EntityType::SlowdownPwrup { .. }) => {
                self.remove_entity();
                self.grant_powerup(PowerupType::Slowdown { tick_duration: SLOWDOWN_DURATION });
                self.snake_remove_tail();
            },
            None => {
                self.snake_remove_tail();
            },
        }
    }

    // The score and the state.

    pub fn get_score(&self) -> (r: u64)
        ensures
            r == self@.score,
    {
        self.score
    }

    pub fn get_state(&self) -> (r: &GameState)
        ensures
            *r == self@.state,
    {
        &self.state
    }

    /// Starts the game, or goes on with it.
    pub fn play(&mut self)
        requires
            old(self).wf(),
        ensures
            final(self).wf(),
            final(self)@ == (GameView { state: GameState::Playing, ..old(self)@ }),
    {
        self.state = GameState::Playing;
    }

    /// Puts the game back as `new` made it, on the same playfield.
    pub fn start_over(&mut self)
        requires
            old(self).wf(),
        ensures
            final(self).wf(),
            final(self)@ == GameView::initial(old(self)@.playfield_x, old(self)@.playfield_y),
    {
        *self = Self::new(self.playfield_x, self.playfield_y);
    }

    /// Milliseconds to wait before the next tick: the base interval less the
    /// score while the score is at most the base interval, the floor once it
    /// is past it, or the base interval and a delay while a Slowdown power-up
    /// is active.
    pub fn get_tick_speed(&self) -> (r: u64)
        ensures
            r == self@.tick_speed(),
    {
        if self.current_powerup.is_slowdown() {
            BASE_TICK_SPEED + SLOWDOWN_DELAY
        } else if self.score <= BASE_TICK_SPEED {
            BASE_TICK_SPEED - self.score
        } else {
            MIN_TICK_SPEED
        }
    }
    // Ticks.

    /// Advances a game in `Playing` by one tick; other states stay as they are.
    pub fn next(&mut self) -> (r: &GameState)
        requires
            old(self).wf(),
            old(self)@.score <= u64::MAX - 3,
        ensures
            final(self).wf(),
            if old(self)@.state is Playing {
                old(self)@.ticked_to(final(self)@)
            } else {
                final(self)@ == old(self)@
            },
            *r == final(self)@.state,
    {
        match self.state {
            GameState::Playing => {
                self.process_next_game_tick();
                &self.state
            },
            _ => &self.state,
        }
    }

    /// One tick: take the next queued direction, move the head, stop on a
    /// wall or on the snake itself, count the power-up down, let the entity
    /// under the head act, then spawn.
    fn process_next_game_tick(&mut self)
        requires
            old(self).wf(),
            old(self)@.state is Playing,
            old(self)@.score <= u64::MAX - 3,
        ensures
            final(self).wf(),
            old(self)@.ticked_to(final(self)@),
    {
        if self.next_direction.len() > 0 {
            let direction = self.next_direction.remove(0);
            if direction != self.current_direction.opposite() {
                self.current_direction = direction;
            }
        }
        let ghost w = self@;
        assert(w == old(self)@.with_direction_applied());
        match self.snake_add_head(self.playfield_x, self.playfield_y) {
            Ok(()) => {},
            Err(e) => {
                let reason = match e {
                    SnakeError::HitWall => GameOverReason::HitWall,
                    SnakeError::NoHead => GameOverReason::NoHead,
                };
                self.state = GameState::GameOver { score: self.score, reason };
                return ;
            },
        }
        assert(self@.snake.drop_last() =~= w.snake);
        if !self.current_powerup.is_supersnake() && self.snake_eating_itself() {
            self.state = GameState::GameOver { score: self.score, reason: GameOverReason::AteItself };
            return ;
        }
        let ghost m = self@;
        assert(m == w.moved());
        self.process_active_powerup();
        self.handle_eat_entity();
        assert(self@ == old(self)@.before_spawning());
        if matches!(self.state, GameState::Playing) {
            self.generate_entities();
        }
    }

    // Drawing.

    /// What the cell shows: the head over the body, the body over an entity,
    /// an entity over grass.
    pub fn glyph_at(&self, c: Coordinate) -> (r: char)
        requires
            self.wf(),
        ensures
            r == self@.cell_glyph(c),
    {
        let n = self.snake.len();
        if self.snake[n - 1] == c {
            return Characters::SnakeHead.value();
        }
        let mut i: usize = 0;
        while i < n - 1
            invariant
                n == self@.snake.len(),
                n >= 1,
                self@.snake[n - 1] != c,
                0 <= i <= n - 1,
                forall|j: int| 0 <= j < i ==> self@.snake[j] != c,
            decreases n - 1 - i,
        {
            if self.snake[i] == c {
                assert(self@.snake.drop_last()[i as int] == c);
                return match self.current_powerup {
                    PowerupType::Supersnake { .. } => Characters::SnakeBodySuper.value(),
                    PowerupType::Slowdown { .. } => Characters::SnakeBodySlow.value(),
                    PowerupType::Inactive => Characters::SnakeBody.value(),
                };
            }
            i += 1;
        }
        assert(!self@.snake.drop_last().contains(c)) by {
            if self@.snake.drop_last().contains(c) {
                let j = choose|j: int| 0 <= j < n - 1 && self@.snake.drop_last()[j] == c;
                assert(self@.snake[j] == c);
            }
        }
        match self.entities.get_entity(c) {
            Some(EntityType::SupersnakePwrup { .. }) => Characters::SupersnakePwrup.value(),
            Some(EntityType::SlowdownPwrup { .. }) => Characters::SlowdownPwrup.value(),
            Some(EntityType::Apple { .. }) => Characters::Apple.value(),
            Some(EntityType::Obstacle { .. }) => Characters::Obstacle.value(),
            None => Characters::Grass.value(),
        }
    }

    pub fn get_playfield(&self) -> (r: (usize, usize))
        ensures
            r == (self@.playfield_x, self@.playfield_y),
    {
        (self.playfield_x, self.playfield_y)
    }

    // Spawning.

    /// Puts an entity that `factory` makes on a random free cell, if one is
    /// left.
    fn spawn_entity<F: Fn(Coordinate) -> EntityType>(
        &mut self,
        factory: F,
        Ghost(make): Ghost<spec_fn(Coordinate) -> EntityType>,
    )
        requires
            old(self).wf(),
            forall|c: Coordinate| #[trigger] factory.requires((c,)),
            forall|c: Coordinate, e: EntityType| #[trigger]
                factory.ensures((c,), e) ==> e == make(c),
            forall|c: Coordinate| (#[trigger] make(c)).cell() == c,
        ensures
            final(self).wf(),
            old(self)@.spawn_step(final(self)@, true, make, false),
    {
        let zones = self.get_entity_no_go_zones();
        let placed = self.entities.place_avoiding(
            factory,
            zones.as_slice(),
            self.playfield_x,
            self.playfield_y,
        );
        proof {
            self.entities.lemma_finite();
            let v = old(self)@;
            match placed {
                Some(c) => {
                    let e = choose|e: EntityType|
                        #[trigger] factory.ensures((c,), e) && self.entities@ == v.entities.insert(
                            c,
                            e,
                        );
                    assert(v.free(c));
                },
                None => {
                    assert forall|c: Coordinate| !#[trigger] v.free(c) by {
                        if in_field(c, v.playfield_x as int, v.playfield_y as int) {
                            assert(zones@.contains(c));
                        }
                    }
                },
            }
        }
    }

    /// Puts an obstacle on every cell of the layout.
    fn place_obstacles(&mut self)
        requires
            old(self).wf(),
        ensures
            final(self).wf(),
            final(self)@ == (GameView {
                entities: with_obstacles(
                    old(self)@.entities,
                    old(self)@.playfield_x,
                    old(self)@.playfield_y,
                ),
                ..old(self)@
            }),
    {
        let cells = obstacle_coords(self.playfield_x, self.playfield_y);
        let ghost m = self@.entities;
        assert(m.union_prefer_right(
            Map::new(|c: Coordinate| cells@.take(0).contains(c), |c: Coordinate| obstacle_at(c)),
        ) =~= m);
        let mut i: usize = 0;
        while i < cells.len()
            invariant
                0 <= i <= cells@.len(),
                cells@ == obstacle_layout(self.playfield_x, self.playfield_y),
                forall|j: int|
                    0 <= j < cells@.len() ==> in_field(
                        #[trigger] cells@[j],
                        self.playfield_x as int,
                        self.playfield_y as int,
                    ),
                self.wf(),
                self@ == (GameView {
                    entities: m.union_prefer_right(
                        Map::new(
                            |c: Coordinate| cells@.take(i as int).contains(c),
                            |c: Coordinate| obstacle_at(c),
                        ),
                    ),
                    ..old(self)@
                }),
            decreases cells@.len() - i,
        {
            let c = cells[i];
            self.entities.add_entity(&c, EntityType::new_obstacle(c));
            proof {
                self.entities.lemma_finite();
                let t0 = cells@.take(i as int);
                let t1 = cells@.take(i + 1);
                assert forall|d: Coordinate| t1.contains(d) <==> t0.contains(d) || d == c by {
                    if t1.contains(d) {
                        let j = choose|j: int| 0 <= j < t1.len() && #[trigger] t1[j] == d;
                        if j < i {
                            assert(t0[j] == d);
                        }
                    }
                    if t0.contains(d) {
                        let j = choose|j: int| 0 <= j < t0.len() && #[trigger] t0[j] == d;
                        assert(t1[j] == d);
                    }
                    if d == c {
                        assert(t1[i as int] == d);
                    }
                }
            }
            i += 1;
            assert(self@.entities =~= m.union_prefer_right(
                Map::new(
                    |d: Coordinate| cells@.take(i as int).contains(d),
                    |d: Coordinate| obstacle_at(d),
                ),
            ));
        }
        assert(cells@.take(i as int) =~= cells@);
        assert(self@.entities =~= with_obstacles(m, self.playfield_x, self.playfield_y));
    }

    /// Power-ups at their score thresholds, each raising the score by one so
    /// that it does not come again on the next tick; an apple while there are
    /// too few; and the obstacles put back.
    fn generate_entities(&mut self)
        requires
            old(self).wf(),
            old(self)@.score <= u64::MAX - 2,
        ensures
            final(self).wf(),
            old(self)@.spawned(final(self)@),
    {
        let ghost v = self@;
        if self.score % SUPERSNAKE_PERIOD == 0 && self.score > 0 {
            self.spawn_entity(EntityType::new_supersnake, Ghost(|c| supersnake_at(c)));
            self.score = self.score + 1;
        }
        let ghost w1 = self@;
        assert(v.spawn_step(w1, supersnake_due(v.score), |c| supersnake_at(c), true));
        if self.score % SLOWDOWN_PERIOD == 0 && self.score > 0 {
            self.spawn_entity(EntityType::new_slowdown, Ghost(|c| slowdown_at(c)));
            self.score = self.score + 1;
        }
        let ghost w2 = self@;
        assert(w1.spawn_step(w2, slowdown_due(w1.score), |c| slowdown_at(c), true));
        if self.entities.apple_count() < MIN_APPLES {
            self.spawn_entity(EntityType::new_apple, Ghost(|c| apple_at(c)));
        }
        let ghost w3 = self@;
        assert(w2.spawn_step(
            w3,
            apple_cells(w2.entities).len() < MIN_APPLES,
            |c| apple_at(c),
            false,
        ));
        self.place_obstacles();
        assert(self@ == (GameView {
            entities: with_obstacles(w3.entities, w3.playfield_x, w3.playfield_y),
            ..w3
        }));
    }
}

/// The cells of the obstacle layout on a `px` by `py` field.
fn obstacle_coords(px: usize, py: usize) -> (r: Vec<Coordinate>)
    requires
        px >= MIN_PLAYFIELD,
        py >= MIN_PLAYFIELD,
    ensures
        r@ == obstacle_layout(px, py),
        forall|j: int| 0 <= j < r@.len() ==> in_field(#[trigger] r@[j], px as int, py as int),
{
    let right = px - 6;
    let bottom = py - 6;
    let mut r: Vec<Coordinate> = Vec::new();
    // Top left
    r.push(Coordinate::new(5, 5));
    r.push(Coordinate::new(5, 6));
    r.push(Coordinate::new(5, 7));
    r.push(Coordinate::new(6, 5));
    r.push(Coordinate::new(7, 5));
    // Top right
    r.push(Coordinate::new(right, 5));
    r.push(Coordinate::new(right, 6));
    r.push(Coordinate::new(right, 7));
    r.push(Coordinate::new(right - 1, 5));
    r.push(Coordinate::new(right - 2, 5));
    // Bottom left
    r.push(Coordinate::new(5, bottom));
    r.push(Coordinate::new(5, bottom - 1));
    r.push(Coordinate::new(5, bottom - 2));
    r.push(Coordinate::new(6, bottom));
    r.push(Coordinate::new(7, bottom));
    // Bottom right
    r.push(Coordinate::new(right, bottom));
    r.push(Coordinate::new(right, bottom - 1));
    r.push(Coordinate::new(right, bottom - 2));
    r.push(Coordinate::new(right - 1, bottom));
    r.push(Coordinate::new(right - 2, bottom));
    assert(r@ =~= obstacle_layout(px, py));
    r
}

proof fn lemma_spawned_keeps_snake(v: GameView, after: GameView)
    requires
        v.spawned(after),
    ensures
        after.snake == v.snake,
        after.direction == v.direction,
        after.state == v.state,
        !supersnake_due(v.score) && !slowdown_due(v.score) ==> after.score == v.score,
{
    let (w1, w2, w3) = choose|w1: GameView, w2: GameView, w3: GameView|
        {
            &&& v.spawn_step(w1, supersnake_due(v.score), |c| supersnake_at(c), true)
            &&& w1.spawn_step(w2, slowdown_due(w1.score), |c| slowdown_at(c), true)
            &&& w2.spawn_step(
                w3,
                apple_cells(w2.entities).len() < MIN_APPLES,
                |c| apple_at(c),
                false,
            )
            &&& after == GameView {
                entities: with_obstacles(w3.entities, w3.playfield_x, w3.playfield_y),
                ..w3
            }
        };
}

/// While the game goes on, a tick leaves the snake as long as it was, or
/// one cell longer; it never shrinks.
pub proof fn lemma_tick_keeps_or_grows_length(v: GameView, after: GameView)
    requires
        v.wf(),
        v.state is Playing,
        v.ticked_to(after),
        after.state is Playing,
    ensures
        after.snake.len() == v.snake.len() || after.snake.len() == v.snake.len() + 1,
{
    lemma_spawned_keeps_snake(v.before_spawning(), after);
}

/// A queued direction that would turn the snake straight back is dropped:
/// the snake keeps its direction and its head moves on that way.
pub proof fn lemma_reversal_not_taken(v: GameView, after: GameView)
    requires
        v.wf(),
        v.state is Playing,
        v.queue.len() > 0,
        v.queue[0] == v.direction.reverse(),
        v.ticked_to(after),
    ensures
        after.direction == v.direction,
        after.state is Playing ==> after.head() == stepped(v.head(), v.direction),
{
    let b = v.before_spawning();
    if b.state is Playing {
        lemma_spawned_keeps_snake(b, after);
    }
}

/// A tick whose head lands on an apple raises the score by one and keeps
/// the tail, so the snake grows by one cell; this holds where the new score
/// does not call for a power-up, which raises the score once more.
pub proof fn lemma_apple_grows_snake(v: GameView, after: GameView)
    requires
        v.wf(),
        v.state is Playing,
        v.score < u64::MAX,
        v.ticked_to(after),
        after.state is Playing,
        ({
            let w = v.with_direction_applied();
            let h = stepped(w.head(), w.direction);
            v.entities.contains_key(h) && v.entities[h] is Apple
        }),
        !supersnake_due((v.score + 1) as u64),
        !slowdown_due((v.score + 1) as u64),
    ensures
        after.score == v.score + 1,
        after.snake.len() == v.snake.len() + 1,
        after.snake.drop_last() == v.snake,
{
    let b = v.before_spawning();
    lemma_spawned_keeps_snake(b, after);
    assert(b.snake.drop_last() =~= v.snake);
}

/// A tick whose head lands on an empty cell moves the snake: the head is
/// added, the tail removed, the length stays.
pub proof fn lemma_empty_cell_moves_snake(v: GameView, after: GameView)
    requires
        v.wf(),
        v.state is Playing,
        v.ticked_to(after),
        after.state is Playing,
        ({
            let w = v.with_direction_applied();
            !v.entities.contains_key(stepped(w.head(), w.direction))
        }),
    ensures
        ({
            let w = v.with_direction_applied();
            after.snake == v.snake.push(stepped(w.head(), w.direction)).drop_first()
        }),
        after.snake.len() == v.snake.len(),
{
    lemma_spawned_keeps_snake(v.before_spawning(), after);
}

/// An obstacle under the head ends the game, unless the snake is a
/// Supersnake: then the game goes on and the obstacle is taken away.
pub proof fn lemma_obstacle_under_head(v: GameView)
    requires
        v.wf(),
        v.snake.len() >= 2,
        v.entities.contains_key(v.head()),
        v.entities[v.head()] is Obstacle,
    ensures
        v.powerup is Supersnake ==> {
            &&& v.after_eating().state == v.state
            &&& v.after_eating().entities == v.entities.remove(v.head())
            &&& !v.after_eating().entities.contains_key(v.head())
        },
        !(v.powerup is Supersnake) ==> v.after_eating().state == (GameState::GameOver {
            score: v.score,
            reason: GameOverReason::HitObstacle,
        }),
{
}

} // verus!
