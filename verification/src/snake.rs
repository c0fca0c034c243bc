//! Game-state engine: snake geometry, apple, mode, direction and score,
//! with one per-tick transition.
//!
//! Coordinates are integers on the bounded board `[0, width] x [0, height]`.
//! The head advances 2 units per tick along one axis and a neck point sits
//! 1 unit behind it, so the body has sub-cell resolution. The boundary
//! policy is toroidal wrapping: a head or neck that would leave the board
//! by one unit re-enters from the opposite edge.

use vstd::prelude::*;

verus! {

/// What the game is currently doing. `Lost` is terminal: only building a
/// fresh engine leaves it.
#[derive(Clone, Copy, PartialEq, Eq, Structural, Debug)]
pub enum GameMode {
    Play,
    Pause,
    Lost,
}

/// The axis and sense the head moves along on the next tick.
///
/// Callers that change the direction must never set the exact reverse of
/// the current direction: the neck would land on the current neck point
/// and the snake would instantly collide with itself. `Snake::try_turn`
/// enforces this by ignoring any turn onto the current axis.
#[derive(Clone, Copy, PartialEq, Eq, Structural, Debug)]
pub enum Direction {
    Left,
    Down,
    Up,
    Right,
}

/// One point of the board, or the off-board sentinel `(-1, -1)` that marks
/// freshly grown, not yet travelled body slots.
#[derive(Clone, Copy, PartialEq, Eq, Structural, Debug)]
pub struct Pos {
    pub x: i64,
    pub y: i64,
}

/// The mathematical value of a `Snake`: the body as a sequence of points,
/// head first, plus apple, mode, direction and score.
pub struct GameModel {
    pub body: Seq<Pos>,
    pub apple: Pos,
    pub mode: GameMode,
    pub dir: Direction,
    pub score: int,
}

/// The sentinel point appended when the snake grows.
pub open spec fn sentinel_pos() -> Pos {
    Pos { x: -1i64, y: -1i64 }
}

/// Strictly ordinary board point: both coordinates within `[0, limit]`.
pub open spec fn on_board(p: Pos, width: u16, height: u16) -> bool {
    &&& 0 <= p.x <= width
    &&& 0 <= p.y <= height
}

/// Every body point is either an ordinary board point or has sentinel
/// coordinates; in both cases it lies within `[-1, limit]` on each axis.
pub open spec fn near_board(p: Pos, width: u16, height: u16) -> bool {
    &&& -1 <= p.x <= width
    &&& -1 <= p.y <= height
}

/// A point strictly inside the play boundary, where the apple may lie.
pub open spec fn interior(p: Pos, width: u16, height: u16) -> bool {
    &&& 0 < p.x < width
    &&& 0 < p.y < height
}

/// The candidate head, 2 units ahead of `c0` along `d`, before wrapping.
pub open spec fn head_candidate(c0: Pos, d: Direction) -> Pos {
    match d {
        Direction::Left => Pos { x: (c0.x - 2) as i64, y: c0.y },
        Direction::Down => Pos { x: c0.x, y: (c0.y - 2) as i64 },
        Direction::Up => Pos { x: c0.x, y: (c0.y + 2) as i64 },
        Direction::Right => Pos { x: (c0.x + 2) as i64, y: c0.y },
    }
}

/// The candidate neck, 1 unit ahead of `c0` along `d`, before wrapping.
pub open spec fn neck_candidate(c0: Pos, d: Direction) -> Pos {
    match d {
        Direction::Left => Pos { x: (c0.x - 1) as i64, y: c0.y },
        Direction::Down => Pos { x: c0.x, y: (c0.y - 1) as i64 },
        Direction::Up => Pos { x: c0.x, y: (c0.y + 1) as i64 },
        Direction::Right => Pos { x: (c0.x + 1) as i64, y: c0.y },
    }
}

/// Toroidal boundary rule on a candidate head/neck pair. Leaving past the
/// low edge (a coordinate reaches -1) re-enters at `limit - 1` with the
/// neck on `limit`; leaving past the high edge (a coordinate reaches
/// `limit + 1`) re-enters at 1 with the neck on 0. The cross-axis
/// coordinate is preserved.
pub open spec fn spec_wrap(hd: Pos, nk: Pos, width: u16, height: u16) -> (Pos, Pos) {
    if hd.x == -1 || nk.x == -1 {
        let y = if hd.x == -1 { hd.y } else { nk.y };
        (Pos { x: (width - 1) as i64, y }, Pos { x: width as i64, y })
    } else if hd.x == width + 1 || nk.x == width + 1 {
        (Pos { x: 1i64, y: hd.y }, Pos { x: 0i64, y: hd.y })
    } else if hd.y == -1 || nk.y == -1 {
        let x = if hd.y == -1 { hd.x } else { nk.x };
        (Pos { x, y: (height - 1) as i64 }, Pos { x, y: height as i64 })
    } else if hd.y == height + 1 || nk.y == height + 1 {
        (Pos { x: hd.x, y: 1i64 }, Pos { x: hd.x, y: 0i64 })
    } else {
        (hd, nk)
    }
}

/// The wrapped head/neck pair the snake at `m` aims at on its next tick.
pub open spec fn spec_targets(m: GameModel, width: u16, height: u16) -> (Pos, Pos) {
    spec_wrap(
        head_candidate(m.body[0], m.dir),
        neck_candidate(m.body[0], m.dir),
        width,
        height,
    )
}

/// The generous 3x3 apple hit test: within one unit on both axes.
pub open spec fn spec_around(seeker: Pos, target: Pos) -> bool {
    &&& -1 <= seeker.x - target.x <= 1
    &&& -1 <= seeker.y - target.y <= 1
}

/// Whether the two directions share an axis; a turn request onto the
/// current axis (staying straight or reversing) is ignored.
pub open spec fn same_axis(a: Direction, b: Direction) -> bool {
    ||| ((a == Direction::Left || a == Direction::Right) && (b == Direction::Left
        || b == Direction::Right))
    ||| ((a == Direction::Up || a == Direction::Down) && (b == Direction::Up
        || b == Direction::Down))
}

/// Well-formedness of a game state on a `width x height` board: the body
/// has at least one (outer, inner) pair and an even number of points, the
/// head and neck are ordinary board points, every body point is at worst a
/// sentinel coordinate away from the board, and the apple lies strictly
/// inside the boundary.
pub open spec fn wf_model(m: GameModel, width: u16, height: u16) -> bool {
    &&& 2 <= m.body.len()
    &&& m.body.len() % 2 == 0
    &&& on_board(m.body[0], width, height)
    &&& on_board(m.body[1], width, height)
    &&& forall|i: int| 0 <= i < m.body.len() ==> near_board(#[trigger] m.body[i], width, height)
    &&& interior(m.apple, width, height)
}

/// The forward slide of the whole body: the new head and neck stand in
/// front and every later point takes the value that stood two places
/// (one pair) closer to the head.
pub open spec fn spec_shifted(s: Seq<Pos>, hd: Pos, nk: Pos) -> Seq<Pos> {
    Seq::new(
        s.len(),
        |j: int|
            if j == 0 {
                hd
            } else if j == 1 {
                nk
            } else {
                s[j - 2]
            },
    )
}

/// The six sentinel points appended when an apple is eaten: one logical
/// segment of growth at double resolution, plus the pair of slots the
/// slide frees for the new head and neck.
pub open spec fn spec_growth() -> Seq<Pos> {
    Seq::new(6, |j: int| sentinel_pos())
}

/// Whether the next tick from `m` runs into the snake itself: the wrapped
/// head or neck already lies somewhere in the body.
pub open spec fn spec_collides(m: GameModel, width: u16, height: u16) -> bool {
    let t = spec_targets(m, width, height);
    m.body.contains(t.0) || m.body.contains(t.1)
}

/// Whether the next tick from `m` eats the apple: no self-collision, and
/// the wrapped head lands within the 3x3 surrounding of the apple.
pub open spec fn spec_eats(m: GameModel, width: u16, height: u16) -> bool {
    &&& !spec_collides(m, width, height)
    &&& spec_around(spec_targets(m, width, height).0, m.apple)
}

/// The per-tick transition. Exactly one of three things happens: a
/// self-collision turns the mode to `Lost` and leaves everything else
/// untouched; eating the apple grows the body by six points, slides it,
/// installs `new_apple` and adds ten to the score; otherwise the body
/// just slides forward. `new_apple` stands for the freshly randomized
/// apple and is only read on the eating path.
pub open spec fn spec_step(m: GameModel, width: u16, height: u16, new_apple: Pos) -> GameModel {
    let t = spec_targets(m, width, height);
    if m.body.contains(t.0) || m.body.contains(t.1) {
        GameModel { body: m.body, apple: m.apple, mode: GameMode::Lost, dir: m.dir, score: m.score }
    } else if spec_around(t.0, m.apple) {
        GameModel {
            body: spec_shifted(m.body + spec_growth(), t.0, t.1),
            apple: new_apple,
            mode: m.mode,
            dir: m.dir,
            score: m.score + 10,
        }
    } else {
        GameModel {
            body: spec_shifted(m.body, t.0, t.1),
            apple: m.apple,
            mode: m.mode,
            dir: m.dir,
            score: m.score,
        }
    }
}

/// The state after a whole run of ticks, one per entry of `apples`; each
/// entry stands for the apple position the corresponding tick would
/// install if it ate.
pub open spec fn spec_run(m: GameModel, width: u16, height: u16, apples: Seq<Pos>) -> GameModel
    decreases apples.len(),
{
    if apples.len() == 0 {
        m
    } else {
        spec_run(spec_step(m, width, height, apples[0]), width, height, apples.drop_first())
    }
}

/// The game-state engine. All fields are public: the renderer reads them
/// every frame, and the input handler writes `direction` and `game_mode`
/// between ticks (`try_turn` and `toggle_pause` do so safely). Writers of
/// `direction` must never install the reverse of the current direction.
pub struct Snake {
    pub coords: Vec<Pos>,
    pub apple_coords: Pos,
    pub game_mode: GameMode,
    pub direction: Direction,
    pub score: usize,
}

impl View for Snake {
    type V = GameModel;

    open spec fn view(&self) -> GameModel {
        GameModel {
            body: self.coords@,
            apple: self.apple_coords,
            mode: self.game_mode,
            dir: self.direction,
            score: self.score as int,
        }
    }
}

/// Relies on rand::random with the thread-local generator: it returns a
/// value of the requested type; nothing is promised of which one.
pub assume_specification<T>[ rand::random::<T> ]() -> (r: T)
    where
        rand::distributions::Standard: rand::distributions::Distribution<T>,
;

/// Draw a fresh coordinate strictly inside one board axis of size
/// `limit`: whatever the raw random value, the result is folded into
/// `[1, limit - 2]`.
fn random_axis_coord(limit: u16) -> (r: u16)
    requires
        12 <= limit,
    ensures
        1 <= r && r <= limit - 2,
{
    let raw: u16 = rand::random::<u16>();
    raw % (limit - 2) + 1
}

/// Whether `p` already lies somewhere in the body.
fn coords_contain(v: &Vec<Pos>, p: Pos) -> (r: bool)
    ensures
        r == v@.contains(p),
{
    let mut i: usize = 0;
    while i < v.len()
        invariant
            i <= v@.len(),
            forall|k: int| 0 <= k < i ==> v@[k] != p,
        decreases v@.len() - i,
    {
        if v[i].x == p.x && v[i].y == p.y {
            proof {
                assert(v@[i as int] == p);
            }
            return true;
        }
        i = i + 1;
    }
    false
}

/// The generous apple hit test, as executable code.
fn is_around(seeker: Pos, target: Pos) -> (r: bool)
    requires
        -1 <= target.x <= u16::MAX,
        -1 <= target.y <= u16::MAX,
    ensures
        r == spec_around(seeker, target),
{
    (seeker.x == target.x - 1 || seeker.x == target.x || seeker.x == target.x + 1) && (seeker.y
        == target.y - 1 || seeker.y == target.y || seeker.y == target.y + 1)
}

/// Build the slid body: the new head and neck in front, then everything
/// the old body held, two places later, with the last pair dropped.
fn shift_coords(v: &Vec<Pos>, hd: Pos, nk: Pos) -> (r: Vec<Pos>)
    requires
        2 <= v@.len(),
    ensures
        r@ == spec_shifted(v@, hd, nk),
{
    let mut r: Vec<Pos> = Vec::new();
    r.push(hd);
    r.push(nk);
    let mut j: usize = 2;
    while j < v.len()
        invariant
            2 <= j <= v@.len(),
            r@.len() == j,
            r@[0] == hd,
            r@[1] == nk,
            forall|k: int| 2 <= k < j ==> r@[k] == v@[k - 2],
        decreases v@.len() - j,
    {
        let q = v[j - 2];
        r.push(q);
        j = j + 1;
    }
    proof {
        assert(r@ =~= spec_shifted(v@, hd, nk));
    }
    r
}

/// Law: the wrapped head and neck of a well-formed snake are always
/// ordinary board points, whichever way it moves and wherever it wraps.
pub proof fn lemma_targets_on_board(m: GameModel, width: u16, height: u16)
    requires
        12 <= width,
        12 <= height,
        1 <= m.body.len(),
        on_board(m.body[0], width, height),
    ensures
        on_board(spec_targets(m, width, height).0, width, height),
        on_board(spec_targets(m, width, height).1, width, height),
{
    match m.dir {
        Direction::Left => {},
        Direction::Down => {},
        Direction::Up => {},
        Direction::Right => {},
    }
}

/// Law: one tick preserves well-formedness, whatever apple position it
/// installs, provided that position is interior whenever the tick eats.
pub proof fn lemma_step_preserves_wf(m: GameModel, width: u16, height: u16, a: Pos)
    requires
        12 <= width,
        12 <= height,
        wf_model(m, width, height),
        spec_eats(m, width, height) ==> interior(a, width, height),
    ensures
        wf_model(spec_step(m, width, height, a), width, height),
{
    lemma_targets_on_board(m, width, height);
    let t = spec_targets(m, width, height);
    let s = spec_step(m, width, height, a);
    if spec_collides(m, width, height) {
        assert(s.body == m.body);
    } else if spec_around(t.0, m.apple) {
        let g = m.body + spec_growth();
        assert(s.body.len() == m.body.len() + 6);
        assert forall|i: int| 0 <= i < s.body.len() implies near_board(
            #[trigger] s.body[i],
            width,
            height,
        ) by {
            if i >= 2 {
                assert(s.body[i] == g[i - 2]);
                if i - 2 < m.body.len() {
                    assert(g[i - 2] == m.body[i - 2]);
                } else {
                    assert(g[i - 2] == sentinel_pos());
                }
            }
        }
    } else {
        assert(s.body.len() == m.body.len());
        assert forall|i: int| 0 <= i < s.body.len() implies near_board(
            #[trigger] s.body[i],
            width,
            height,
        ) by {
            if i >= 2 {
                assert(s.body[i] == m.body[i - 2]);
            }
        }
    }
}

impl Snake {
    /// Build a fresh game on a `width x height` board, both at least 12:
    /// a six-point body centered horizontally and extending upward from
    /// the vertical center, moving up, in play, with score zero and the
    /// apple at a random interior point.
    pub fn new(width: u16, height: u16) -> (s: Snake)
        requires
            12 <= width,
            12 <= height,
        ensures
            wf_model(s@, width, height),
            s@.body.len() == 6,
            forall|i: int|
                0 <= i < 6 ==> s@.body[i] == (Pos {
                    x: (width / 2) as i64,
                    y: (height / 2 - i) as i64,
                }),
            interior(s@.apple, width, height),
            s@.mode == GameMode::Play,
            s@.dir == Direction::Up,
            s@.score == 0,
    {
        let cx: i64 = (width / 2) as i64;
        let cy: i64 = (height / 2) as i64;
        let mut coords: Vec<Pos> = Vec::new();
        coords.push(Pos { x: cx, y: cy });
        coords.push(Pos { x: cx, y: cy - 1 });
        coords.push(Pos { x: cx, y: cy - 2 });
        coords.push(Pos { x: cx, y: cy - 3 });
        coords.push(Pos { x: cx, y: cy - 4 });
        coords.push(Pos { x: cx, y: cy - 5 });
        let ax = random_axis_coord(width);
        let ay = random_axis_coord(height);
        Snake {
            coords,
            apple_coords: Pos { x: ax as i64, y: ay as i64 },
            game_mode: GameMode::Play,
            direction: Direction::Up,
            score: 0,
        }
    }

    /// One tick of play; the caller gates on `game_mode == Play`. The
    /// candidate head moves 2 units along the current direction with the
    /// neck 1 unit behind, wraps across the boundary toroidally, and then
    /// exactly one of three things happens: hitting the body turns the
    /// mode to `Lost` with nothing else changed; landing within one unit
    /// of the apple grows the body by six points, slides it, re-randomizes
    /// the apple to an interior point and adds ten to the score; otherwise
    /// the body just slides forward.
    pub fn forward(&mut self, width: &u16, height: &u16)
        requires
            12 <= *width,
            12 <= *height,
            wf_model(old(self)@, *width, *height),
            old(self)@.mode == GameMode::Play,
            old(self)@.score + 10 <= usize::MAX,
        ensures
            final(self)@ == spec_step(old(self)@, *width, *height, final(self)@.apple),
            wf_model(final(self)@, *width, *height),
            spec_eats(old(self)@, *width, *height) ==> interior(
                final(self)@.apple,
                *width,
                *height,
            ),
            !spec_eats(old(self)@, *width, *height) ==> final(self)@.apple == old(self)@.apple,
    {
        let w: i64 = *width as i64;
        let h: i64 = *height as i64;
        let c0 = self.coords[0];

        let mut head: Pos = match self.direction {
            Direction::Left => Pos { x: c0.x - 2, y: c0.y },
            Direction::Down => Pos { x: c0.x, y: c0.y - 2 },
            Direction::Up => Pos { x: c0.x, y: c0.y + 2 },
            Direction::Right => Pos { x: c0.x + 2, y: c0.y },
        };
        let mut neck: Pos = match self.direction {
            Direction::Left => Pos { x: c0.x - 1, y: c0.y },
            Direction::Down => Pos { x: c0.x, y: c0.y - 1 },
            Direction::Up => Pos { x: c0.x, y: c0.y + 1 },
            Direction::Right => Pos { x: c0.x + 1, y: c0.y },
        };

        if head.x == -1 || neck.x == -1 {
            let y = if head.x == -1 {
                head.y
            } else {
                neck.y
            };
            head = Pos { x: w - 1, y };
            neck = Pos { x: w, y };
        } else if head.x == w + 1 || neck.x == w + 1 {
            let y = head.y;
            head = Pos { x: 1, y };
            neck = Pos { x: 0, y };
        } else if head.y == -1 || neck.y == -1 {
            let x = if head.y == -1 {
                head.x
            } else {
                neck.x
            };
            head = Pos { x, y: h - 1 };
            neck = Pos { x, y: h };
        } else if head.y == h + 1 || neck.y == h + 1 {
            let x = head.x;
            head = Pos { x, y: 1 };
            neck = Pos { x, y: 0 };
        }

        proof {
            assert(head == spec_targets(old(self)@, *width, *height).0);
            assert(neck == spec_targets(old(self)@, *width, *height).1);
        }

        if coords_contain(&self.coords, head) || coords_contain(&self.coords, neck) {
            // The snake ran into itself.
            self.game_mode = GameMode::Lost;
            proof {
                assert(self@ == spec_step(old(self)@, *width, *height, self@.apple));
            }
        } else if is_around(head, self.apple_coords) {
            // The head landed around the apple: grow, slide, re-randomize.
            let ghost pre = self.coords@;
            self.coords.push(Pos { x: -1, y: -1 });
            self.coords.push(Pos { x: -1, y: -1 });
            self.coords.push(Pos { x: -1, y: -1 });
            self.coords.push(Pos { x: -1, y: -1 });
            self.coords.push(Pos { x: -1, y: -1 });
            self.coords.push(Pos { x: -1, y: -1 });
            proof {
                assert(self.coords@ =~= pre + spec_growth());
            }
            let slid = shift_coords(&self.coords, head, neck);
            self.coords = slid;
            let ax = random_axis_coord(*width);
            let ay = random_axis_coord(*height);
            self.apple_coords = Pos { x: ax as i64, y: ay as i64 };
            self.score = self.score + 10;
            proof {
                assert(self@ == spec_step(old(self)@, *width, *height, self@.apple));
            }
        } else {
            // Plain move: the body slides one pair forward.
            let slid = shift_coords(&self.coords, head, neck);
            self.coords = slid;
            proof {
                assert(self@ == spec_step(old(self)@, *width, *height, self@.apple));
            }
        }

        proof {
            lemma_step_preserves_wf(old(self)@, *width, *height, self@.apple);
        }
    }

    /// Apply an input-handler turn request: a request on the current axis
    /// (staying straight or the forbidden reversal) is ignored; any other
    /// request installs the new direction and forfeits one point of score,
    /// never dropping below zero. Nothing else changes.
    pub fn try_turn(&mut self, d: Direction)
        ensures
            final(self)@.body == old(self)@.body,
            final(self)@.apple == old(self)@.apple,
            final(self)@.mode == old(self)@.mode,
            same_axis(old(self)@.dir, d) ==> final(self)@.dir == old(self)@.dir
                && final(self)@.score == old(self)@.score,
            !same_axis(old(self)@.dir, d) ==> final(self)@.dir == d && final(self)@.score == (
            if old(self)@.score > 0 {
                old(self)@.score - 1
            } else {
                0int
            }),
    {
        let same = match (self.direction, d) {
            (Direction::Left, Direction::Left) => true,
            (Direction::Left, Direction::Right) => true,
            (Direction::Right, Direction::Left) => true,
            (Direction::Right, Direction::Right) => true,
            (Direction::Up, Direction::Up) => true,
            (Direction::Up, Direction::Down) => true,
            (Direction::Down, Direction::Up) => true,
            (Direction::Down, Direction::Down) => true,
            _ => false,
        };
        if !same {
            self.direction = d;
            if self.score > 0 {
                self.score = self.score - 1;
            }
        }
    }

    /// Toggle between play and pause; a lost game stays lost. Nothing but
    /// the mode changes.
    pub fn toggle_pause(&mut self)
        ensures
            final(self)@.body == old(self)@.body,
            final(self)@.apple == old(self)@.apple,
            final(self)@.dir == old(self)@.dir,
            final(self)@.score == old(self)@.score,
            final(self)@.mode == (match old(self)@.mode {
                GameMode::Play => GameMode::Pause,
                GameMode::Pause => GameMode::Play,
                GameMode::Lost => GameMode::Lost,
            }),
    {
        self.game_mode = match self.game_mode {
            GameMode::Play => GameMode::Pause,
            GameMode::Pause => GameMode::Play,
            GameMode::Lost => GameMode::Lost,
        };
    }
}

/// Law: a tick that neither collides nor eats keeps the body length,
/// mode, score, direction and apple unchanged, puts the wrapped head and
/// neck in front, and gives every later point the value that stood one
/// pair closer to the head before the tick.
pub proof fn lemma_plain_step_shifts(m: GameModel, width: u16, height: u16, a: Pos)
    requires
        2 <= m.body.len(),
        !spec_collides(m, width, height),
        !spec_around(spec_targets(m, width, height).0, m.apple),
    ensures
        spec_step(m, width, height, a).body.len() == m.body.len(),
        spec_step(m, width, height, a).body[0] == spec_targets(m, width, height).0,
        spec_step(m, width, height, a).body[1] == spec_targets(m, width, height).1,
        forall|j: int|
            2 <= j < m.body.len() ==> spec_step(m, width, height, a).body[j] == m.body[j - 2],
        spec_step(m, width, height, a).mode == m.mode,
        spec_step(m, width, height, a).score == m.score,
        spec_step(m, width, height, a).dir == m.dir,
        spec_step(m, width, height, a).apple == m.apple,
{
}

/// Law: a tick that eats grows the body by exactly six points, adds
/// exactly ten to the score, keeps the mode and direction, installs the
/// given apple, and slides the old body one pair toward the tail with
/// sentinel points in the freshly grown slots.
pub proof fn lemma_eat_grows(m: GameModel, width: u16, height: u16, a: Pos)
    requires
        spec_eats(m, width, height),
    ensures
        spec_step(m, width, height, a).body.len() == m.body.len() + 6,
        spec_step(m, width, height, a).body[0] == spec_targets(m, width, height).0,
        spec_step(m, width, height, a).body[1] == spec_targets(m, width, height).1,
        forall|j: int|
            2 <= j < m.body.len() + 2 ==> spec_step(m, width, height, a).body[j] == m.body[j - 2],
        forall|j: int|
            m.body.len() + 2 <= j < m.body.len() + 6 ==> spec_step(m, width, height, a).body[j]
                == sentinel_pos(),
        spec_step(m, width, height, a).score == m.score + 10,
        spec_step(m, width, height, a).mode == m.mode,
        spec_step(m, width, height, a).dir == m.dir,
        spec_step(m, width, height, a).apple == a,
{
    let g = m.body + spec_growth();
    assert forall|j: int| 2 <= j < m.body.len() + 2 implies spec_step(
        m,
        width,
        height,
        a,
    ).body[j] == m.body[j - 2] by {
        assert(g[j - 2] == m.body[j - 2]);
    }
    assert forall|j: int| m.body.len() + 2 <= j < m.body.len() + 6 implies spec_step(
        m,
        width,
        height,
        a,
    ).body[j] == sentinel_pos() by {
        assert(g[j - 2] == spec_growth()[j - 2 - m.body.len()]);
    }
}

/// Law: a tick from play mode ends lost exactly when the wrapped head or
/// neck already lies in the body, and such a tick changes nothing but the
/// mode: the body, apple, score and direction are untouched.
pub proof fn lemma_collision_detection(m: GameModel, width: u16, height: u16, a: Pos)
    requires
        m.mode == GameMode::Play,
    ensures
        spec_collides(m, width, height) <==> (m.body.contains(spec_targets(m, width, height).0)
            || m.body.contains(spec_targets(m, width, height).1)),
        spec_collides(m, width, height) <==> spec_step(m, width, height, a).mode == GameMode::Lost,
        spec_collides(m, width, height) ==> spec_step(m, width, height, a).body == m.body
            && spec_step(m, width, height, a).apple == m.apple && spec_step(
            m,
            width,
            height,
            a,
        ).score == m.score && spec_step(m, width, height, a).dir == m.dir,
{
}

/// Law: the four toroidal edge mappings. A head computed at x = -1
/// reappears at x = width - 1 with the neck on x = width and y unchanged;
/// a neck computed at x = width + 1 puts the head at x = 1 with the neck
/// on x = 0; symmetrically for both y edges; and a candidate pair already
/// on the board is left exactly where it was.
pub proof fn lemma_wrap_edges(hd: Pos, nk: Pos, width: u16, height: u16)
    requires
        12 <= width,
        12 <= height,
    ensures
        hd.x == -1 ==> spec_wrap(hd, nk, width, height) == (
            Pos { x: (width - 1) as i64, y: hd.y },
            Pos { x: width as i64, y: hd.y },
        ),
        hd.x == width + 1 && nk.x == width ==> spec_wrap(hd, nk, width, height) == (
            Pos { x: 1i64, y: hd.y },
            Pos { x: 0i64, y: hd.y },
        ),
        0 <= hd.x <= width && 0 <= nk.x <= width && hd.y == -1 ==> spec_wrap(
            hd,
            nk,
            width,
            height,
        ) == (Pos { x: hd.x, y: (height - 1) as i64 }, Pos { x: hd.x, y: height as i64 }),
        0 <= hd.x <= width && 0 <= nk.x <= width && hd.y == height + 1 && nk.y == height
            ==> spec_wrap(hd, nk, width, height) == (
            Pos { x: hd.x, y: 1i64 },
            Pos { x: hd.x, y: 0i64 },
        ),
        on_board(hd, width, height) && on_board(nk, width, height) ==> spec_wrap(
            hd,
            nk,
            width,
            height,
        ) == (hd, nk),
{
}

/// Law: the apple hit test is symmetric, inclusive of every offset of at
/// most one unit on both axes (the exact center included), and excludes
/// any pair of points two or more units apart on either axis.
pub proof fn lemma_around_symmetric(a: Pos, b: Pos)
    ensures
        spec_around(a, b) <==> spec_around(b, a),
        spec_around(a, a),
        spec_around(a, b) <==> ((a.x == b.x - 1 || a.x == b.x || a.x == b.x + 1) && (a.y == b.y - 1
            || a.y == b.y || a.y == b.y + 1)),
        (a.x - b.x >= 2 || b.x - a.x >= 2 || a.y - b.y >= 2 || b.y - a.y >= 2) ==> !spec_around(
            a,
            b,
        ),
{
}

/// Law: however many ticks run from play mode, as long as no tick along
/// the way starts from a self-colliding position, the mode stays `Play`:
/// only a self-collision ever ends the game.
pub proof fn lemma_play_persists(m: GameModel, width: u16, height: u16, apples: Seq<Pos>)
    requires
        m.mode == GameMode::Play,
        forall|i: int|
            0 <= i < apples.len() ==> !spec_collides(
                #[trigger] spec_run(m, width, height, apples.take(i)),
                width,
                height,
            ),
    ensures
        spec_run(m, width, height, apples).mode == GameMode::Play,
    decreases apples.len(),
{
    if apples.len() > 0 {
        assert(apples.take(0) =~= Seq::<Pos>::empty());
        assert(spec_run(m, width, height, apples.take(0)) == m);
        assert(!spec_collides(m, width, height));
        let m1 = spec_step(m, width, height, apples[0]);
        assert(m1.mode == GameMode::Play);
        let rest = apples.drop_first();
        assert forall|i: int| 0 <= i < rest.len() implies !spec_collides(
            #[trigger] spec_run(m1, width, height, rest.take(i)),
            width,
            height,
        ) by {
            assert(apples.take(i + 1).len() == i + 1);
            assert(apples.take(i + 1)[0] == apples[0]);
            assert(apples.take(i + 1).drop_first() =~= rest.take(i));
            assert(spec_run(m, width, height, apples.take(i + 1)) == spec_run(
                m1,
                width,
                height,
                rest.take(i),
            ));
            assert(!spec_collides(spec_run(m, width, height, apples.take(i + 1)), width, height));
        }
        lemma_play_persists(m1, width, height, rest);
        assert(spec_run(m, width, height, apples) == spec_run(m1, width, height, rest));
    }
}

} // verus!
