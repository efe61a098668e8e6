use vstd::prelude::*;

verus! {

/// Number of squares in the snake.
pub const SNAKE_SIZE: usize = 7;

/// Largest coordinate of the square playing grid; the smallest is 0.
pub const GRID_MAX: i32 = 12;

/// A square of the playing grid.
#[derive(Debug, Clone, Copy, PartialEq, Eq, Structural)]
pub struct Point {
    pub x: i32,
    pub y: i32,
}

/// A turn requested by the player, relative to the current heading.
#[derive(Debug, Clone, Copy, PartialEq, Eq, Structural)]
pub enum DirectionChange {
    Left,
    Right,
}

/// Heading of the snake on the grid; `Up` lowers `y`.
#[derive(Debug, Clone, Copy, PartialEq, Eq, Structural)]
pub enum Direction {
    Up,
    Down,
    Left,
    Right,
}

struct Snake {
    body: Vec<Point>,
    direction: Direction,
}

/// State of the snake game: the snake's squares from tail to head, its
/// heading, the score and whether the game is over.
pub struct Game {
    snake: Snake,
    score: u32,
    game_over: bool,
}

/// The abstract value of a `Game`.
pub struct GameView {
    pub body: Seq<Point>,
    pub direction: Direction,
    pub score: u32,
    pub game_over: bool,
}

impl View for Game {
    type V = GameView;

    closed spec fn view(&self) -> GameView {
        GameView {
            body: self.snake.body@,
            direction: self.snake.direction,
            score: self.score,
            game_over: self.game_over,
        }
    }
}

/// Whether `p` lies on the grid.
pub open spec fn on_grid(p: Point) -> bool {
    0 <= p.x <= GRID_MAX && 0 <= p.y <= GRID_MAX
}

/// A game is well formed when its snake has `SNAKE_SIZE` squares, all on the
/// grid.
pub open spec fn game_wf(g: GameView) -> bool {
    &&& g.body.len() == SNAKE_SIZE
    &&& forall|i: int| 0 <= i < g.body.len() ==> on_grid(#[trigger] g.body[i])
}

/// A coordinate that left the grid on one side comes back on the other.
pub open spec fn wrap(v: int) -> int {
    if v > GRID_MAX {
        0
    } else if v < 0 {
        GRID_MAX as int
    } else {
        v
    }
}

/// The square next to `p` in direction `d`, wrapping round the grid's edges.
pub open spec fn step(p: Point, d: Direction) -> Point {
    let (dx, dy) = match d {
        Direction::Up => (0int, -1int),
        Direction::Down => (0int, 1int),
        Direction::Left => (-1int, 0int),
        Direction::Right => (1int, 0int),
    };
    Point { x: wrap(p.x + dx) as i32, y: wrap(p.y + dy) as i32 }
}

/// The heading after turning `c` from heading `d`.
pub open spec fn turn(d: Direction, c: DirectionChange) -> Direction {
    match (d, c) {
        (Direction::Up, DirectionChange::Left) => Direction::Left,
        (Direction::Up, DirectionChange::Right) => Direction::Right,
        (Direction::Down, DirectionChange::Left) => Direction::Right,
        (Direction::Down, DirectionChange::Right) => Direction::Left,
        (Direction::Left, DirectionChange::Left) => Direction::Down,
        (Direction::Left, DirectionChange::Right) => Direction::Up,
        (Direction::Right, DirectionChange::Left) => Direction::Up,
        (Direction::Right, DirectionChange::Right) => Direction::Down,
    }
}

impl Game {
    /// A new game: every square of the snake at the origin, heading right.
    pub fn new() -> (g: Self)
        ensures
            g@.body == Seq::new(SNAKE_SIZE as nat, |i: int| Point { x: 0, y: 0 }),
            g@.direction == Direction::Right,
            g@.score == 0,
            !g@.game_over,
            game_wf(g@),
    {
        let mut body: Vec<Point> = Vec::new();
        while body.len() < SNAKE_SIZE
            invariant
                body.len() <= SNAKE_SIZE,
                forall|i: int| 0 <= i < body.len() ==> body@[i] == (Point { x: 0, y: 0 }),
            decreases SNAKE_SIZE - body.len(),
        {
            body.push(Point { x: 0, y: 0 });
        }
        assert(body@ =~= Seq::new(SNAKE_SIZE as nat, |i: int| Point { x: 0, y: 0 }));
        Game { snake: Snake { body, direction: Direction::Right }, score: 0, game_over: false }
    }

    /// Restarts the game: heading right, no score, not over.
    ///
    /// Returns the squares to draw: for each index `i` of the snake, column
    /// `i` in the row of its square. The snake's squares themselves are left
    /// as they were.
    pub fn init(&mut self) -> (r: Vec<Point>)
        requires
            game_wf(old(self)@),
        ensures
            final(self)@ == (GameView {
                direction: Direction::Right,
                score: 0,
                game_over: false,
                ..old(self)@
            }),
            r@ == Seq::new(
                SNAKE_SIZE as nat,
                |i: int| Point { x: i as i32, y: old(self)@.body[i].y },
            ),
    {
        self.snake.direction = Direction::Right;
        self.score = 0;
        self.game_over = false;
        let mut points: Vec<Point> = Vec::new();
        let mut i: usize = 0;
        while i < SNAKE_SIZE
            invariant
                i <= SNAKE_SIZE,
                self.snake.body@.len() == SNAKE_SIZE,
                self.snake.body@ == old(self)@.body,
                points@.len() == i,
                forall|j: int|
                    0 <= j < i ==> points@[j] == (Point {
                        x: j as i32,
                        y: old(self)@.body[j].y,
                    }),
            decreases SNAKE_SIZE - i,
        {
            points.push(Point { x: i as i32, y: self.snake.body[i].y });
            i = i + 1;
        }
        assert(points@ =~= Seq::new(
            SNAKE_SIZE as nat,
            |i: int| Point { x: i as i32, y: old(self)@.body[i].y },
        ));
        points
    }

    /// Moves the snake one square along its heading: the tail square leaves,
    /// and a new head enters next to the old head, wrapping round the grid's
    /// edges.
    ///
    /// Returns the square that was left, to clear, and the new head, to draw.
    pub fn move_snake(&mut self) -> (r: (Point, Point))
        requires
            game_wf(old(self)@),
        ensures
            game_wf(final(self)@),
            r.0 == old(self)@.body[0],
            r.1 == step(old(self)@.body.last(), old(self)@.direction),
            final(self)@ == (GameView {
                body: old(self)@.body.drop_first().push(r.1),
                ..old(self)@
            }),
    {
        let mut new_head = self.snake.body[SNAKE_SIZE - 1];
        match self.snake.direction {
            Direction::Up => {
                new_head.y = new_head.y - 1;
            },
            Direction::Down => {
                new_head.y = new_head.y + 1;
            },
            Direction::Left => {
                new_head.x = new_head.x - 1;
            },
            Direction::Right => {
                new_head.x = new_head.x + 1;
            },
        }
        if new_head.x > GRID_MAX {
            new_head.x = 0;
        } else if new_head.x < 0 {
            new_head.x = GRID_MAX;
        }
        if new_head.y > GRID_MAX {
            new_head.y = 0;
        } else if new_head.y < 0 {
            new_head.y = GRID_MAX;
        }
        let tail = self.snake.body[0];
        let mut i: usize = 0;
        while i < SNAKE_SIZE - 1
            invariant
                i <= SNAKE_SIZE - 1,
                self.snake.body@.len() == SNAKE_SIZE,
                self.snake.direction == old(self)@.direction,
                self.score == old(self)@.score,
                self.game_over == old(self)@.game_over,
                forall|j: int|
                    0 <= j < SNAKE_SIZE ==> #[trigger] self.snake.body@[j] == if j < i {
                        old(self)@.body[j + 1]
                    } else {
                        old(self)@.body[j]
                    },
            decreases SNAKE_SIZE - 1 - i,
        {
            let next = self.snake.body[i + 1];
            self.snake.body.set(i, next);
            i = i + 1;
        }
        self.snake.body.set(SNAKE_SIZE - 1, new_head);
        assert(self.snake.body@ =~= old(self)@.body.drop_first().push(new_head));
        (tail, new_head)
    }

    /// Turns the snake left or right of its current heading.
    pub fn change_direction(&mut self, direction: DirectionChange)
        ensures
            final(self)@ == (GameView {
                direction: turn(old(self)@.direction, direction),
                ..old(self)@
            }),
    {
        match self.snake.direction {
            Direction::Up => match direction {
                DirectionChange::Left => {
                    self.snake.direction = Direction::Left;
                },
                DirectionChange::Right => {
                    self.snake.direction = Direction::Right;
                },
            },
            Direction::Down => match direction {
                DirectionChange::Left => {
                    self.snake.direction = Direction::Right;
                },
                DirectionChange::Right => {
                    self.snake.direction = Direction::Left;
                },
            },
            Direction::Left => match direction {
                DirectionChange::Left => {
                    self.snake.direction = Direction::Down;
                },
                DirectionChange::Right => {
                    self.snake.direction = Direction::Up;
                },
            },
            Direction::Right => match direction {
                DirectionChange::Left => {
                    self.snake.direction = Direction::Up;
                },
                DirectionChange::Right => {
                    self.snake.direction = Direction::Down;
                },
            },
        }
    }
}

} // verus!
