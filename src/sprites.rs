//! Actors: their motion state, and the protocol that the player and the
//! enemy share for moving, jumping, colliding and per-frame bookkeeping.
use vstd::prelude::*;
use crate::geometry::{overlap_of, overlaps, Rect};
use crate::units::{
    clamp, from_pixel, lemma_pixel_of_units, pixel_of, sat_add, sat_sum, to_pixel, units_of, FRICTION, GRAVITY_PER_TICK,
    JUMP_SPEED, MAX_SPEED, TILE_SIZE, UNITS_PER_PIXEL, WALK_ACCEL, WIN_X, WIN_Y,
};

verus! {

/// Position, velocity and airborne flag of an actor, in sub-pixel units
/// (velocities are per tick).
#[derive(Clone, Copy, Debug, PartialEq, Eq, Structural)]
pub struct Kinematics {
    pub x: i64,
    pub y: i64,
    pub vx: i64,
    pub vy: i64,
    /// Gravity and vertical collision are active this tick.
    pub falling: bool,
}

/// One of the two axes along which motion and collision are resolved.
#[derive(Clone, Copy, Debug, PartialEq, Eq, Structural)]
pub enum Axis {
    X,
    Y,
}

/// The keys that drive the player, as sampled for one frame.
#[derive(Clone, Copy, Debug, PartialEq, Eq, Structural)]
pub struct Keys {
    pub left: bool,
    pub right: bool,
    pub up: bool,
}

/// What the per-frame update of an actor reports.
#[derive(Clone, Copy, Debug, PartialEq, Eq, Structural)]
pub enum Outcome {
    /// The game goes on.
    Running,
    /// The actor fell below the bottom of the window: the game is lost.
    FellOffWorld,
}

/// The state at rest at the origin.
pub open spec fn rest() -> Kinematics {
    Kinematics { x: 0, y: 0, vx: 0, vy: 0, falling: false }
}

/// Horizontal speed after accelerating by `dir` steps of [`WALK_ACCEL`], held
/// within the speed limit.
pub open spec fn after_move_dir(k: Kinematics, dir: int) -> Kinematics {
    Kinematics {
        vx: clamp(k.vx + dir * WALK_ACCEL, -MAX_SPEED as int, MAX_SPEED as int) as i64,
        ..k
    }
}

/// A grounded actor takes off upwards; an airborne one is left as it is.
pub open spec fn after_jump(k: Kinematics) -> Kinematics {
    if k.falling {
        k
    } else {
        Kinematics { vy: (-JUMP_SPEED) as i64, falling: true, ..k }
    }
}

/// One tick of motion along an axis: the position moves by the speed, and
/// along `Y`, only while airborne, gravity then adds to the vertical speed.
pub open spec fn after_move(k: Kinematics, axis: Axis) -> Kinematics {
    match axis {
        Axis::X => Kinematics { x: sat_sum(k.x as int, k.vx as int) as i64, ..k },
        Axis::Y => if k.falling {
            Kinematics {
                y: sat_sum(k.y as int, k.vy as int) as i64,
                vy: sat_sum(k.vy as int, GRAVITY_PER_TICK as int) as i64,
                ..k
            }
        } else {
            k
        },
    }
}

/// The pixels that an actor covers on screen: one tile at its truncated position.
pub open spec fn sprite_rect(k: Kinematics) -> Rect {
    Rect {
        x: pixel_of(k.x as int) as i32,
        y: pixel_of(k.y as int) as i32,
        w: TILE_SIZE as u32,
        h: TILE_SIZE as u32,
    }
}

/// Vertical response to an overlap `c`, shared by all actors. Only an airborne
/// actor responds: moving down it lands on top of the tile and is grounded,
/// otherwise it is pushed below the tile; its vertical speed stops either way.
pub open spec fn vertical_response(k: Kinematics, c: Rect) -> Kinematics {
    if !k.falling {
        k
    } else if k.vy > 0 {
        Kinematics { y: units_of(c.y - TILE_SIZE) as i64, vy: 0, falling: false, ..k }
    } else {
        Kinematics { y: units_of(c.y + c.h) as i64, vy: 0, ..k }
    }
}

/// The player's response to an overlap `c`. Along `X` it stops against the
/// face of the tile that it moved into and loses its horizontal speed.
pub open spec fn player_response(k: Kinematics, axis: Axis, c: Rect) -> Kinematics {
    match axis {
        Axis::X => Kinematics {
            x: if k.vx > 0 {
                units_of(c.x - TILE_SIZE) as i64
            } else if k.vx < 0 {
                units_of(c.x + c.w) as i64
            } else {
                k.x
            },
            vx: 0,
            ..k
        },
        Axis::Y => vertical_response(k, c),
    }
}

/// `-v`, held into the range of `i64`.
pub open spec fn sat_neg(v: int) -> int {
    clamp(-v, i64::MIN as int, i64::MAX as int)
}

/// The enemy's response to an overlap `c`. Along `X` it is put against the
/// right face of the tile when moving left, against the left face otherwise,
/// and turns back.
pub open spec fn enemy_response(k: Kinematics, axis: Axis, c: Rect) -> Kinematics {
    match axis {
        Axis::X => Kinematics {
            x: if k.vx < 0 {
                units_of(c.x + c.w) as i64
            } else {
                units_of(c.x - TILE_SIZE) as i64
            },
            vx: sat_neg(k.vx as int) as i64,
            ..k
        },
        Axis::Y => vertical_response(k, c),
    }
}

/// Horizontal speed after one tick of friction: [`FRICTION`] closer to zero,
/// and exactly zero once within [`FRICTION`] of it.
pub open spec fn after_friction(vx: int) -> int {
    if -FRICTION <= vx <= FRICTION {
        0
    } else if vx > 0 {
        vx - FRICTION
    } else {
        vx + FRICTION
    }
}

/// The player's per-frame bookkeeping: friction when grounded with no
/// horizontal key held, the horizontal bounds of the window (speed is lost at
/// the left edge only), and re-arming of `falling`.
pub open spec fn player_update(k: Kinematics, keys: Keys) -> Kinematics {
    let vx = if !(keys.left || keys.right || k.falling) {
        after_friction(k.vx as int) as i64
    } else {
        k.vx
    };
    let k1 = Kinematics { vx, ..k };
    let k2 = if pixel_of(k1.x as int) < 0 {
        Kinematics { x: 0, vx: 0, ..k1 }
    } else {
        k1
    };
    let k3 = if pixel_of(k2.x as int) > WIN_X - TILE_SIZE {
        Kinematics { x: units_of(WIN_X - TILE_SIZE) as i64, ..k2 }
    } else {
        k2
    };
    Kinematics { falling: true, ..k3 }
}

/// The game is lost once the player is below the bottom of the window.
pub open spec fn player_outcome(k: Kinematics) -> Outcome {
    if pixel_of(k.y as int) > WIN_Y {
        Outcome::FellOffWorld
    } else {
        Outcome::Running
    }
}

/// An actor of the world. Every actor has a motion state, given by `kin`; the
/// variants differ in how they respond to a collision and in their per-frame
/// bookkeeping.
pub trait Sprite {
    /// The motion state of the actor.
    spec fn kin(&self) -> Kinematics;

    /// The motion state after a response to the overlap `c` along `axis`.
    spec fn response(k: Kinematics, axis: Axis, c: Rect) -> Kinematics;

    /// The motion state after the per-frame bookkeeping.
    spec fn updated(k: Kinematics, keys: Keys) -> Kinematics;

    /// What the per-frame bookkeeping reports.
    spec fn outcome(k: Kinematics) -> Outcome;

    fn x(&self) -> (r: i64)
        ensures
            r == self.kin().x,
    ;

    fn y(&self) -> (r: i64)
        ensures
            r == self.kin().y,
    ;

    fn vx(&self) -> (r: i64)
        ensures
            r == self.kin().vx,
    ;

    fn vy(&self) -> (r: i64)
        ensures
            r == self.kin().vy,
    ;

    fn falling(&self) -> (r: bool)
        ensures
            r == self.kin().falling,
    ;

    fn set_x(&mut self, x: i64)
        ensures
            final(self).kin() == (Kinematics { x, ..old(self).kin() }),
    ;

    fn set_y(&mut self, y: i64)
        ensures
            final(self).kin() == (Kinematics { y, ..old(self).kin() }),
    ;

    fn set_vx(&mut self, vx: i64)
        ensures
            final(self).kin() == (Kinematics { vx, ..old(self).kin() }),
    ;

    fn set_vy(&mut self, vy: i64)
        ensures
            final(self).kin() == (Kinematics { vy, ..old(self).kin() }),
    ;

    fn set_falling(&mut self, f: bool)
        ensures
            final(self).kin() == (Kinematics { falling: f, ..old(self).kin() }),
    ;

    /// Responds to the overlap `coll_rect` found along `axis`.
    fn handle_coll(&mut self, axis: Axis, coll_rect: Rect)
        ensures
            final(self).kin() == Self::response(old(self).kin(), axis, coll_rect),
    ;

    /// The per-frame bookkeeping; reports whether the game goes on.
    fn update(&mut self, keys: Keys) -> (r: Outcome)
        ensures
            final(self).kin() == Self::updated(old(self).kin(), keys),
            r == Self::outcome(old(self).kin()),
    ;

    /// The pixels that the actor covers on screen.
    fn rect(&self) -> (r: Rect)
        ensures
            r == sprite_rect(self.kin()),
    {
        let x = self.x();
        let y = self.y();
        Rect::new(to_pixel(x), to_pixel(y), TILE_SIZE as u32, TILE_SIZE as u32)
    }

    /// Accelerates horizontally by `dir` steps (`-1` left, `1` right), then
    /// holds the speed within `[-MAX_SPEED, MAX_SPEED]`.
    fn move_dir(&mut self, dir: i32)
        ensures
            final(self).kin() == after_move_dir(old(self).kin(), dir as int),
            -MAX_SPEED <= final(self).kin().vx <= MAX_SPEED,
    {
        let vx = self.vx();
        let v = sat_add(vx, dir as i64 * WALK_ACCEL);
        let v = if v > MAX_SPEED {
            MAX_SPEED
        } else if v < -MAX_SPEED {
            -MAX_SPEED
        } else {
            v
        };
        self.set_vx(v);
    }

    /// Takes off when grounded; does nothing in the air.
    fn jump(&mut self)
        ensures
            final(self).kin() == after_jump(old(self).kin()),
    {
        if !self.falling() {
            self.set_vy(-JUMP_SPEED);
            self.set_falling(true);
        }
    }

    /// One tick of motion along `axis`.
    fn move_mutate(&mut self, axis: Axis)
        ensures
            final(self).kin() == after_move(old(self).kin(), axis),
    {
        match axis {
            Axis::X => {
                let x = self.x();
                let vx = self.vx();
                self.set_x(sat_add(x, vx));
            },
            Axis::Y => {
                if self.falling() {
                    let y = self.y();
                    let vy = self.vy();
                    self.set_y(sat_add(y, vy));
                    self.set_vy(sat_add(vy, GRAVITY_PER_TICK));
                }
            },
        }
    }
}

/// The player-controlled actor.
#[derive(Clone, Copy, Debug, PartialEq, Eq, Structural)]
pub struct Mario {
    pub x: i64,
    pub y: i64,
    pub vx: i64,
    pub vy: i64,
    pub falling: bool,
}

/// The patrolling enemy: it turns back at every wall.
#[derive(Clone, Copy, Debug, PartialEq, Eq, Structural)]
pub struct Enemy {
    pub x: i64,
    pub y: i64,
    pub vx: i64,
    pub vy: i64,
    pub falling: bool,
}

impl Mario {
    /// A player at rest at the origin.
    pub fn new() -> (r: Mario)
        ensures
            r.kin() == rest(),
    {
        Mario { x: 0, y: 0, vx: 0, vy: 0, falling: false }
    }
}

impl Enemy {
    /// An enemy at rest at the origin.
    pub fn new() -> (r: Enemy)
        ensures
            r.kin() == rest(),
    {
        Enemy { x: 0, y: 0, vx: 0, vy: 0, falling: false }
    }
}

impl Sprite for Mario {
    open spec fn kin(&self) -> Kinematics {
        Kinematics { x: self.x, y: self.y, vx: self.vx, vy: self.vy, falling: self.falling }
    }

    open spec fn response(k: Kinematics, axis: Axis, c: Rect) -> Kinematics {
        player_response(k, axis, c)
    }

    open spec fn updated(k: Kinematics, keys: Keys) -> Kinematics {
        player_update(k, keys)
    }

    open spec fn outcome(k: Kinematics) -> Outcome {
        player_outcome(k)
    }

    fn x(&self) -> (r: i64) {
        self.x
    }

    fn y(&self) -> (r: i64) {
        self.y
    }

    fn vx(&self) -> (r: i64) {
        self.vx
    }

    fn vy(&self) -> (r: i64) {
        self.vy
    }

    fn falling(&self) -> (r: bool) {
        self.falling
    }

    fn set_x(&mut self, x: i64) {
        self.x = x;
    }

    fn set_y(&mut self, y: i64) {
        self.y = y;
    }

    fn set_vx(&mut self, vx: i64) {
        self.vx = vx;
    }

    fn set_vy(&mut self, vy: i64) {
        self.vy = vy;
    }

    fn set_falling(&mut self, f: bool) {
        self.falling = f;
    }

    fn handle_coll(&mut self, axis: Axis, coll_rect: Rect) {
        match axis {
            Axis::X => {
                if self.vx > 0 {
                    self.x = from_pixel(coll_rect.x) - TILE_SIZE as i64 * UNITS_PER_PIXEL;
                } else if self.vx < 0 {
                    self.x = from_pixel(coll_rect.x) + coll_rect.w as i64 * UNITS_PER_PIXEL;
                }
                self.vx = 0;
            },
            Axis::Y => {
                if self.falling {
                    if self.vy > 0 {
                        self.y = from_pixel(coll_rect.y) - TILE_SIZE as i64 * UNITS_PER_PIXEL;
                        self.falling = false;
                    } else {
                        self.y = from_pixel(coll_rect.y) + coll_rect.h as i64 * UNITS_PER_PIXEL;
                    }
                    self.vy = 0;
                }
            },
        }
    }

    fn update(&mut self, keys: Keys) -> (r: Outcome) {
        if !(keys.left || keys.right || self.falling) {
            self.vx = if -FRICTION <= self.vx && self.vx <= FRICTION {
                0
            } else if self.vx > 0 {
                self.vx - FRICTION
            } else {
                self.vx + FRICTION
            };
        }
        if to_pixel(self.x) < 0 {
            self.x = 0;
            self.vx = 0;
        }
        if to_pixel(self.x) > WIN_X - TILE_SIZE {
            self.x = from_pixel(WIN_X - TILE_SIZE);
        }
        self.falling = true;
        if to_pixel(self.y) > WIN_Y {
            Outcome::FellOffWorld
        } else {
            Outcome::Running
        }
    }
}

impl Sprite for Enemy {
    open spec fn kin(&self) -> Kinematics {
        Kinematics { x: self.x, y: self.y, vx: self.vx, vy: self.vy, falling: self.falling }
    }

    open spec fn response(k: Kinematics, axis: Axis, c: Rect) -> Kinematics {
        enemy_response(k, axis, c)
    }

    open spec fn updated(k: Kinematics, keys: Keys) -> Kinematics {
        Kinematics { falling: true, ..k }
    }

    open spec fn outcome(k: Kinematics) -> Outcome {
        Outcome::Running
    }

    fn x(&self) -> (r: i64) {
        self.x
    }

    fn y(&self) -> (r: i64) {
        self.y
    }

    fn vx(&self) -> (r: i64) {
        self.vx
    }

    fn vy(&self) -> (r: i64) {
        self.vy
    }

    fn falling(&self) -> (r: bool) {
        self.falling
    }

    fn set_x(&mut self, x: i64) {
        self.x = x;
    }

    fn set_y(&mut self, y: i64) {
        self.y = y;
    }

    fn set_vx(&mut self, vx: i64) {
        self.vx = vx;
    }

    fn set_vy(&mut self, vy: i64) {
        self.vy = vy;
    }

    fn set_falling(&mut self, f: bool) {
        self.falling = f;
    }

    fn handle_coll(&mut self, axis: Axis, coll_rect: Rect) {
        match axis {
            Axis::X => {
                if self.vx < 0 {
                    self.x = from_pixel(coll_rect.x) + coll_rect.w as i64 * UNITS_PER_PIXEL;
                } else {
                    self.x = from_pixel(coll_rect.x) - TILE_SIZE as i64 * UNITS_PER_PIXEL;
                }
                self.vx = if self.vx == i64::MIN { i64::MAX } else { -self.vx };
            },
            Axis::Y => {
                if self.falling {
                    if self.vy > 0 {
                        self.y = from_pixel(coll_rect.y) - TILE_SIZE as i64 * UNITS_PER_PIXEL;
                        self.falling = false;
                    } else {
                        self.y = from_pixel(coll_rect.y) + coll_rect.h as i64 * UNITS_PER_PIXEL;
                    }
                    self.vy = 0;
                }
            },
        }
    }

    fn update(&mut self, _keys: Keys) -> (r: Outcome) {
        self.falling = true;
        Outcome::Running
    }
}

/// `k` after a run of horizontal accelerations, one per entry of `dirs`.
pub open spec fn after_move_dirs(k: Kinematics, dirs: Seq<int>) -> Kinematics
    decreases dirs.len(),
{
    if dirs.len() == 0 {
        k
    } else {
        after_move_dir(after_move_dirs(k, dirs.drop_last()), dirs.last())
    }
}

/// However many accelerations are applied, in whichever directions, the
/// horizontal speed afterwards is within `[-MAX_SPEED, MAX_SPEED]`.
pub proof fn lemma_speed_stays_bounded(k: Kinematics, dirs: Seq<int>)
    requires
        dirs.len() > 0,
    ensures
        -MAX_SPEED <= after_move_dirs(k, dirs).vx <= MAX_SPEED,
{
}

/// A second jump changes nothing: in the air a jump is a no-op, and after a
/// jump the actor is in the air.
pub proof fn lemma_jump_idempotent(k: Kinematics)
    ensures
        after_jump(after_jump(k)) == after_jump(k),
        k.falling ==> after_jump(k) == k,
{
}

/// A tile that fits the screen with room to spare: side [`TILE_SIZE`], corner
/// within `±2^30` pixels.
pub open spec fn is_screen_tile(t: Rect) -> bool {
    &&& t.w == TILE_SIZE
    &&& t.h == TILE_SIZE
    &&& -0x4000_0000 <= t.x <= 0x4000_0000
    &&& -0x4000_0000 <= t.y <= 0x4000_0000
}

/// The player that moves into a tile along one axis stops flush against it:
/// after its response to the overlap it no longer overlaps that tile, only
/// the speed along that axis is stopped, and the other axis is untouched.
/// Along `X` it moves into the tile when its speed points at the tile's
/// corner column; along `Y` when it is airborne and its speed points at the
/// tile's row (up, or standing still, toward a tile at or above it).
pub proof fn lemma_player_stops_flush(k: Kinematics, t: Rect)
    requires
        is_screen_tile(t),
        overlaps(t, sprite_rect(k)),
    ensures
        ({
            let a = sprite_rect(k);
            let kx = player_response(k, Axis::X, overlap_of(t, a));
            (k.vx > 0 && t.x >= a.x) || (k.vx < 0 && t.x <= a.x) ==> {
                &&& !overlaps(t, sprite_rect(kx))
                &&& kx.vx == 0
                &&& kx.y == k.y && kx.vy == k.vy && kx.falling == k.falling
            }
        }),
        ({
            let a = sprite_rect(k);
            let ky = player_response(k, Axis::Y, overlap_of(t, a));
            k.falling && ((k.vy > 0 && t.y >= a.y) || (k.vy <= 0 && t.y <= a.y)) ==> {
                &&& !overlaps(t, sprite_rect(ky))
                &&& ky.vy == 0
                &&& ky.x == k.x && ky.vx == k.vx
            }
        }),
{
    let a = sprite_rect(k);
    let c = overlap_of(t, a);
    lemma_pixel_of_units(c.x - TILE_SIZE);
    lemma_pixel_of_units(c.x + c.w);
    lemma_pixel_of_units(c.y - TILE_SIZE);
    lemma_pixel_of_units(c.y + c.h);
}

/// The enemy bounces: moving left into a tile on its left, it ends flush
/// against the tile's right face and moves right; moving right into a tile on
/// its right, it ends flush against the tile's left face and moves left.
pub proof fn lemma_enemy_bounces(k: Kinematics, t: Rect)
    requires
        is_screen_tile(t),
        overlaps(t, sprite_rect(k)),
    ensures
        ({
            let a = sprite_rect(k);
            let kx = enemy_response(k, Axis::X, overlap_of(t, a));
            k.vx < 0 && t.x <= a.x ==> {
                &&& kx.vx > 0
                &&& kx.x == units_of(t.x + TILE_SIZE)
                &&& sprite_rect(kx).x == t.x + TILE_SIZE
            }
        }),
        ({
            let a = sprite_rect(k);
            let kx = enemy_response(k, Axis::X, overlap_of(t, a));
            k.vx > 0 && t.x >= a.x ==> {
                &&& kx.vx < 0
                &&& kx.x == units_of(t.x - TILE_SIZE)
                &&& sprite_rect(kx).x == t.x - TILE_SIZE
            }
        }),
{
    lemma_pixel_of_units(t.x + TILE_SIZE);
    lemma_pixel_of_units(t.x - TILE_SIZE);
}

} // verus!
