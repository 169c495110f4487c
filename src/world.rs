//! One frame of the simulation: input, camera, per-axis collision against the
//! tile map, jumping and per-actor bookkeeping.
use vstd::prelude::*;
use crate::geometry::{overlap_of, overlaps, Rect};
use crate::sprites::{
    after_jump, after_move, after_move_dir, is_screen_tile, lemma_enemy_bounces,
    lemma_player_stops_flush, Axis, Enemy, Keys, Kinematics, Mario, Outcome, Sprite,
    sprite_rect,
};
use crate::units::{
    clamp, GRAVITY_PER_TICK, lemma_pixel_bracket, lemma_pixel_monotone, lemma_pixel_of_units, pixel_of, DEAD_ZONE_X, sat_add, sat_sum, DEAD_ZONE, MAX_SCROLL, TILE_SIZE, UNITS_PER_PIXEL};

verus! {

/// A tile as seen on screen when the camera is `shift` pixels into the level.
pub open spec fn screen_tile(t: Rect, shift: int) -> Rect {
    Rect { x: (t.x - shift) as i32, y: t.y, w: TILE_SIZE as u32, h: TILE_SIZE as u32 }
}

/// Tile `i` overlaps the actor's rectangle `r`.
pub open spec fn hits(tiles: Seq<Rect>, i: int, r: Rect, shift: int) -> bool {
    overlaps(screen_tile(tiles[i], shift), r)
}

/// Tile `i` is the first, in storage order, that overlaps `r`.
pub open spec fn is_first_hit(tiles: Seq<Rect>, i: int, r: Rect, shift: int) -> bool {
    &&& 0 <= i < tiles.len()
    &&& hits(tiles, i, r, shift)
    &&& forall|j: int| 0 <= j < i ==> !hits(tiles, j, r, shift)
}

/// The first tile, in storage order, that overlaps `r`, if any does.
pub open spec fn first_hit(tiles: Seq<Rect>, r: Rect, shift: int) -> Option<int> {
    if exists|i: int| is_first_hit(tiles, i, r, shift) {
        Some(choose|i: int| is_first_hit(tiles, i, r, shift))
    } else {
        None
    }
}

/// One axis pass for one actor: it moves along `axis`, then responds to the
/// first tile that it overlaps, if any; at most one tile is resolved.
pub open spec fn resolved<S: Sprite>(k: Kinematics, axis: Axis, tiles: Seq<Rect>, shift: int) -> Kinematics {
    let m = after_move(k, axis);
    let r = sprite_rect(m);
    match first_hit(tiles, r, shift) {
        Some(i) => S::response(m, axis, overlap_of(screen_tile(tiles[i], shift), r)),
        None => m,
    }
}

proof fn lemma_first_hit_unique(tiles: Seq<Rect>, i: int, r: Rect, shift: int)
    requires
        is_first_hit(tiles, i, r, shift),
    ensures
        first_hit(tiles, r, shift) == Some(i),
{
    let c = choose|c: int| is_first_hit(tiles, c, r, shift);
    assert(is_first_hit(tiles, c, r, shift));
    if c < i {
        assert(!hits(tiles, c, r, shift));
    } else if c > i {
        assert(!hits(tiles, i, r, shift));
    }
}

/// Moves an actor along `axis` and resolves its collision with the first tile,
/// in storage order, that it then overlaps. Tiles are shifted `shift` pixels
/// left, as the camera sees them.
pub fn collide_axis<S: Sprite>(sprite: &mut S, axis: Axis, tiles: &Vec<Rect>, shift: i32)
    requires
        0 <= shift,
        forall|i: int| 0 <= i < tiles@.len() ==> #[trigger] tiles@[i].x >= 0,
    ensures
        final(sprite).kin() == resolved::<S>(old(sprite).kin(), axis, tiles@, shift as int),
{
    sprite.move_mutate(axis);
    let r = sprite.rect();
    let ghost m = sprite.kin();
    let mut i: usize = 0;
    while i < tiles.len()
        invariant
            0 <= shift,
            forall|j: int| 0 <= j < tiles@.len() ==> #[trigger] tiles@[j].x >= 0,
            i <= tiles@.len(),
            sprite.kin() == m,
            m == after_move(old(sprite).kin(), axis),
            r == sprite_rect(m),
            forall|j: int| 0 <= j < i ==> !hits(tiles@, j, r, shift as int),
        decreases tiles@.len() - i,
    {
        let t = Rect::new(tiles[i].x - shift, tiles[i].y, TILE_SIZE as u32, TILE_SIZE as u32);
        assert(t == screen_tile(tiles@[i as int], shift as int));
        if t.has_intersection(&r) {
            proof {
                lemma_first_hit_unique(tiles@, i as int, r, shift as int);
            }
            match t.intersection(&r) {
                Some(c) => sprite.handle_coll(axis, c),
                None => {},
            }
            return;
        }
        i = i + 1;
    }
    assert(!(exists|j: int| is_first_hit(tiles@, j, r, shift as int)));
}

/// How far past the dead-zone column an actor at `x` stands, or 0.
pub open spec fn scroll_excess(x: int) -> int {
    if x > DEAD_ZONE {
        x - DEAD_ZONE
    } else {
        0
    }
}

/// The camera offset after following a player at `x`: it advances by the
/// excess past the dead zone, within `[0, MAX_SCROLL]`.
pub open spec fn scrolled_back(x_back: int, x: int) -> int {
    clamp(x_back + scroll_excess(x), 0, MAX_SCROLL as int)
}

/// The player, put back on the dead-zone column when past it.
pub open spec fn pinned(k: Kinematics) -> Kinematics {
    if k.x > DEAD_ZONE {
        Kinematics { x: DEAD_ZONE, ..k }
    } else {
        k
    }
}

/// Another actor, moved back by the camera's advance `e`.
pub open spec fn trailed(k: Kinematics, e: int) -> Kinematics {
    if e > 0 {
        Kinematics { x: sat_sum(k.x as int, -e) as i64, ..k }
    } else {
        k
    }
}

/// Keeps the player within the dead zone: once past column [`DEAD_ZONE`], the
/// camera advances by the excess, the player goes back to that column and
/// every enemy moves back by the same amount, so that its place in the level
/// is kept. The camera offset is then held within `[0, MAX_SCROLL]`.
pub fn scroll_background(x_back: &mut i64, player: &mut Mario, enemies: &mut Vec<Enemy>)
    ensures
        *final(x_back) == scrolled_back(*old(x_back) as int, old(player).x as int),
        final(player).kin() == pinned(old(player).kin()),
        final(enemies)@.len() == old(enemies)@.len(),
        forall|i: int|
            0 <= i < old(enemies)@.len() ==> #[trigger] final(enemies)@[i].kin() == trailed(
                old(enemies)@[i].kin(),
                scroll_excess(old(player).x as int),
            ),
{
    let result: i64 = if player.x() > DEAD_ZONE {
        player.x() - DEAD_ZONE
    } else {
        0
    };
    let xb = sat_add(*x_back, result);
    if result > 0 {
        player.set_x(DEAD_ZONE);
        let n = enemies.len();
        let mut i: usize = 0;
        while i < n
            invariant
                n == old(enemies)@.len(),
                n == enemies@.len(),
                i <= n,
                result > 0,
                result == scroll_excess(old(player).x as int),
                forall|j: int|
                    0 <= j < i ==> #[trigger] enemies@[j].kin() == trailed(
                        old(enemies)@[j].kin(),
                        result as int,
                    ),
                forall|j: int| i <= j < n ==> #[trigger] enemies@[j] == old(enemies)@[j],
            decreases n - i,
        {
            let x = enemies[i].x();
            enemies[i].set_x(sat_add(x, -result));
            i = i + 1;
        }
    }
    *x_back = if xb < 0 {
        0
    } else if xb > MAX_SCROLL {
        MAX_SCROLL
    } else {
        xb
    };
}

/// The player's speed after the horizontal keys of a frame: left, then right.
pub open spec fn after_keys(k: Kinematics, keys: Keys) -> Kinematics {
    let k1 = if keys.left {
        after_move_dir(k, -1)
    } else {
        k
    };
    if keys.right {
        after_move_dir(k1, 1)
    } else {
        k1
    }
}

/// The camera shift in whole pixels of an offset in units.
pub open spec fn shift_of(x_back: int) -> int {
    x_back / (UNITS_PER_PIXEL as int)
}

/// The player just before its per-frame bookkeeping: after input, camera,
/// both axis passes and a jump if `up` is held.
pub open spec fn player_before_update(
    k: Kinematics,
    keys: Keys,
    x_back: int,
    tiles: Seq<Rect>,
) -> Kinematics {
    let k1 = after_keys(k, keys);
    let shift = shift_of(scrolled_back(x_back, k1.x as int));
    let k2 = pinned(k1);
    let k3 = resolved::<Mario>(k2, Axis::X, tiles, shift);
    let k4 = resolved::<Mario>(k3, Axis::Y, tiles, shift);
    if keys.up {
        after_jump(k4)
    } else {
        k4
    }
}

/// An enemy after a frame in which the camera advanced by `e` to `shift` pixels.
pub open spec fn enemy_frame(k: Kinematics, e: int, shift: int, tiles: Seq<Rect>) -> Kinematics {
    let k2 = trailed(k, e);
    let k3 = resolved::<Enemy>(k2, Axis::X, tiles, shift);
    let k4 = resolved::<Enemy>(k3, Axis::Y, tiles, shift);
    Enemy::updated(k4, Keys { left: false, right: false, up: false })
}

/// Runs one axis pass over every enemy.
fn collide_enemies(enemies: &mut Vec<Enemy>, axis: Axis, tiles: &Vec<Rect>, shift: i32)
    requires
        0 <= shift,
        forall|i: int| 0 <= i < tiles@.len() ==> #[trigger] tiles@[i].x >= 0,
    ensures
        final(enemies)@.len() == old(enemies)@.len(),
        forall|i: int|
            0 <= i < old(enemies)@.len() ==> #[trigger] final(enemies)@[i].kin() == resolved::<Enemy>(
                old(enemies)@[i].kin(),
                axis,
                tiles@,
                shift as int,
            ),
{
    let n = enemies.len();
    let mut i: usize = 0;
    while i < n
        invariant
            0 <= shift,
            forall|j: int| 0 <= j < tiles@.len() ==> #[trigger] tiles@[j].x >= 0,
            n == old(enemies)@.len(),
            n == enemies@.len(),
            i <= n,
            forall|j: int|
                0 <= j < i ==> #[trigger] enemies@[j].kin() == resolved::<Enemy>(
                    old(enemies)@[j].kin(),
                    axis,
                    tiles@,
                    shift as int,
                ),
            forall|j: int| i <= j < n ==> #[trigger] enemies@[j] == old(enemies)@[j],
        decreases n - i,
    {
        collide_axis(&mut enemies[i], axis, tiles, shift);
        i = i + 1;
    }
}

/// Runs the per-frame bookkeeping of every enemy.
fn update_enemies(enemies: &mut Vec<Enemy>, keys: Keys)
    ensures
        final(enemies)@.len() == old(enemies)@.len(),
        forall|i: int|
            0 <= i < old(enemies)@.len() ==> #[trigger] final(enemies)@[i].kin() == Enemy::updated(
                old(enemies)@[i].kin(),
                keys,
            ),
{
    let n = enemies.len();
    let mut i: usize = 0;
    while i < n
        invariant
            n == old(enemies)@.len(),
            n == enemies@.len(),
            i <= n,
            forall|j: int|
                0 <= j < i ==> #[trigger] enemies@[j].kin() == Enemy::updated(
                    old(enemies)@[j].kin(),
                    keys,
                ),
            forall|j: int| i <= j < n ==> #[trigger] enemies@[j] == old(enemies)@[j],
        decreases n - i,
    {
        enemies[i].update(keys);
        i = i + 1;
    }
}

/// The whole simulated world: the player, the enemies, the solid tiles in
/// level pixels and the camera offset in units.
pub struct World {
    pub player: Mario,
    pub enemies: Vec<Enemy>,
    pub tiles: Vec<Rect>,
    pub x_back: i64,
}

impl World {
    /// The camera offset lies within the level and no tile lies left of it.
    pub open spec fn wf(&self) -> bool {
        &&& 0 <= self.x_back <= MAX_SCROLL
        &&& forall|i: int| 0 <= i < self.tiles@.len() ==> #[trigger] self.tiles@[i].x >= 0
    }

    /// A world with the camera at the start of the level.
    pub fn new(player: Mario, enemies: Vec<Enemy>, tiles: Vec<Rect>) -> (r: World)
        requires
            forall|i: int| 0 <= i < tiles@.len() ==> #[trigger] tiles@[i].x >= 0,
        ensures
            r.wf(),
            r.player == player,
            r.enemies@ == enemies@,
            r.tiles@ == tiles@,
            r.x_back == 0,
    {
        World { player, enemies, tiles, x_back: 0 }
    }

    /// The camera shift in whole pixels.
    pub fn shift(&self) -> (r: i32)
        requires
            self.wf(),
        ensures
            r == shift_of(self.x_back as int),
            0 <= r,
    {
        (self.x_back / UNITS_PER_PIXEL) as i32
    }

    /// Runs one frame. The player accelerates for each horizontal key held;
    /// the camera follows it; then, along `X` and then along `Y`, every actor,
    /// the player first, moves and resolves its collision with the first tile
    /// that it overlaps; the player jumps if `up` is held; last comes each
    /// actor's bookkeeping. Reports whether the player fell off the world.
    pub fn step(&mut self, keys: Keys) -> (r: Outcome)
        requires
            old(self).wf(),
        ensures
            final(self).wf(),
            final(self).tiles@ == old(self).tiles@,
            final(self).x_back == scrolled_back(
                old(self).x_back as int,
                after_keys(old(self).player.kin(), keys).x as int,
            ),
            final(self).player.kin() == Mario::updated(
                player_before_update(old(self).player.kin(), keys, old(self).x_back as int, old(self).tiles@),
                keys,
            ),
            r == Mario::outcome(
                player_before_update(old(self).player.kin(), keys, old(self).x_back as int, old(self).tiles@),
            ),
            final(self).enemies@.len() == old(self).enemies@.len(),
            forall|i: int|
                0 <= i < old(self).enemies@.len() ==> #[trigger] final(self).enemies@[i].kin()
                    == enemy_frame(
                    old(self).enemies@[i].kin(),
                    scroll_excess(after_keys(old(self).player.kin(), keys).x as int),
                    shift_of(final(self).x_back as int),
                    old(self).tiles@,
                ),
    {
        if keys.left {
            self.player.move_dir(-1);
        }
        if keys.right {
            self.player.move_dir(1);
        }
        let ghost e0 = self.enemies@;
        scroll_background(&mut self.x_back, &mut self.player, &mut self.enemies);
        let ghost e1 = self.enemies@;
        let shift = self.shift();
        collide_axis(&mut self.player, Axis::X, &self.tiles, shift);
        collide_enemies(&mut self.enemies, Axis::X, &self.tiles, shift);
        let ghost e2 = self.enemies@;
        collide_axis(&mut self.player, Axis::Y, &self.tiles, shift);
        collide_enemies(&mut self.enemies, Axis::Y, &self.tiles, shift);
        let ghost e3 = self.enemies@;
        if keys.up {
            self.player.jump();
        }
        let r = self.player.update(keys);
        update_enemies(&mut self.enemies, Keys { left: false, right: false, up: false });
        proof {
            assert forall|i: int| 0 <= i < e0.len() implies #[trigger] self.enemies@[i].kin()
                == enemy_frame(
                e0[i].kin(),
                scroll_excess(after_keys(old(self).player.kin(), keys).x as int),
                shift_of(self.x_back as int),
                self.tiles@,
            ) by {
                assert(e1[i].kin() == trailed(e0[i].kin(), scroll_excess(after_keys(old(self).player.kin(), keys).x as int)));
                assert(e2[i].kin() == resolved::<Enemy>(e1[i].kin(), Axis::X, self.tiles@, shift as int));
                assert(e3[i].kin() == resolved::<Enemy>(e2[i].kin(), Axis::Y, self.tiles@, shift as int));
            }
        }
        r
    }
}

/// Dead-zone scrolling: while the player stands at or past the dead-zone
/// column, each frame advances the camera by exactly the player's excess over
/// that column, until the camera reaches [`MAX_SCROLL`], where it stays; the
/// player is put back on the column, which is screen pixel [`DEAD_ZONE_X`].
pub proof fn lemma_camera_dead_zone(x_back: int, k: Kinematics)
    requires
        0 <= x_back <= MAX_SCROLL,
        k.x >= DEAD_ZONE,
    ensures
        x_back + (k.x - DEAD_ZONE) <= MAX_SCROLL ==> scrolled_back(x_back, k.x as int) == x_back + (
        k.x - DEAD_ZONE),
        x_back + (k.x - DEAD_ZONE) > MAX_SCROLL ==> scrolled_back(x_back, k.x as int) == MAX_SCROLL,
        x_back <= scrolled_back(x_back, k.x as int),
        x_back == MAX_SCROLL ==> scrolled_back(x_back, k.x as int) == MAX_SCROLL,
        pinned(k).x == DEAD_ZONE,
        sprite_rect(pinned(k)).x == DEAD_ZONE_X,
{
    lemma_pixel_of_units(DEAD_ZONE_X as int);
}

/// Bounds under which one tick of motion neither saturates nor skips a tile:
/// the actor stays within `±2^29` pixels and moves less than a tile a tick.
pub open spec fn small_motion(k: Kinematics) -> bool {
    &&& -0x2000_0000 * UNITS_PER_PIXEL <= k.x <= 0x2000_0000 * UNITS_PER_PIXEL
    &&& -0x2000_0000 * UNITS_PER_PIXEL <= k.y <= 0x2000_0000 * UNITS_PER_PIXEL
    &&& -15 * UNITS_PER_PIXEL <= k.vx <= 15 * UNITS_PER_PIXEL
    &&& -15 * UNITS_PER_PIXEL <= k.vy <= 15 * UNITS_PER_PIXEL
}

/// A map tile within `2^29` pixels of the origin, seen through a camera shift
/// within the level.
pub open spec fn near_tile(t: Rect, shift: int) -> bool {
    &&& 0 <= t.x <= 0x2000_0000
    &&& -0x2000_0000 <= t.y <= 0x2000_0000
    &&& 0 <= shift <= 0x10_0000
}

/// With a single tile, the pass finds it exactly when the actor overlaps it.
proof fn lemma_single_tile_hit(t: Rect, r: Rect, shift: int)
    ensures
        overlaps(screen_tile(t, shift), r) ==> first_hit(seq![t], r, shift) == Some(0int),
        !overlaps(screen_tile(t, shift), r) ==> first_hit(seq![t], r, shift) is None,
{
    let ts = seq![t];
    if overlaps(screen_tile(t, shift), r) {
        assert(is_first_hit(ts, 0, r, shift));
        lemma_first_hit_unique(ts, 0, r, shift);
    } else {
        assert forall|i: int| !is_first_hit(ts, i, r, shift) by {
            if 0 <= i < ts.len() {
                assert(i == 0);
            }
        }
    }
}

/// One tick of motion along `axis` moves the actor's pixel by at most one
/// tile, and not against its speed.
proof fn lemma_small_step(a: int, v: int)
    requires
        -0x2000_0000 * UNITS_PER_PIXEL <= a <= 0x2000_0000 * UNITS_PER_PIXEL,
        -15 * UNITS_PER_PIXEL <= v <= 15 * UNITS_PER_PIXEL,
    ensures
        v >= 0 ==> pixel_of(a) <= pixel_of(a + v) <= pixel_of(a) + TILE_SIZE,
        v <= 0 ==> pixel_of(a) - TILE_SIZE <= pixel_of(a + v) <= pixel_of(a),
        -0x4000_0000 <= pixel_of(a + v) <= 0x4000_0000,
{
    lemma_pixel_bracket(a);
    lemma_pixel_bracket(a + v);
    if v >= 0 {
        lemma_pixel_monotone(a, a + v);
    } else {
        lemma_pixel_monotone(a + v, a);
    }
}

/// The `X` pass of one actor against a single tile that it does not overlap
/// leaves it clear of the tile, along with the facts that the `Y` pass needs.
proof fn lemma_x_pass_clear(k: Kinematics, t: Rect, shift: int, enemy: bool)
    requires
        small_motion(k),
        near_tile(t, shift),
        !overlaps(screen_tile(t, shift), sprite_rect(k)),
    ensures
        ({
            let k3 = if enemy {
                resolved::<Enemy>(k, Axis::X, seq![t], shift)
            } else {
                resolved::<Mario>(k, Axis::X, seq![t], shift)
            };
            &&& !overlaps(screen_tile(t, shift), sprite_rect(k3))
            &&& k3.y == k.y && k3.vy == k.vy && k3.falling == k.falling
            &&& -0x4000_0000 <= pixel_of(k3.x as int) <= 0x4000_0000
        }),
{
    let st = screen_tile(t, shift);
    let a = sprite_rect(k);
    let m = after_move(k, Axis::X);
    let r = sprite_rect(m);
    lemma_small_step(k.x as int, k.vx as int);
    lemma_pixel_bracket(k.y as int);
    assert(m.x == k.x + k.vx);
    lemma_single_tile_hit(t, r, shift);
    if overlaps(st, r) {
        assert(is_screen_tile(st));
        if k.vx >= 0 {
            assert(a.x + TILE_SIZE <= st.x);
        } else {
            assert(a.x >= st.x + TILE_SIZE);
        }
        lemma_player_stops_flush(m, st);
        lemma_enemy_bounces(m, st);
    }
}

/// The `Y` pass of one actor against a single tile that it does not overlap
/// leaves it clear of the tile.
proof fn lemma_y_pass_clear(k: Kinematics, t: Rect, shift: int, enemy: bool)
    requires
        -0x2000_0000 * UNITS_PER_PIXEL <= k.y <= 0x2000_0000 * UNITS_PER_PIXEL,
        -15 * UNITS_PER_PIXEL <= k.vy <= 15 * UNITS_PER_PIXEL,
        !(-GRAVITY_PER_TICK < k.vy < 0),
        -0x4000_0000 <= pixel_of(k.x as int) <= 0x4000_0000,
        near_tile(t, shift),
        !overlaps(screen_tile(t, shift), sprite_rect(k)),
    ensures
        enemy ==> !overlaps(screen_tile(t, shift), sprite_rect(resolved::<Enemy>(k, Axis::Y, seq![t], shift))),
        !enemy ==> !overlaps(screen_tile(t, shift), sprite_rect(resolved::<Mario>(k, Axis::Y, seq![t], shift))),
{
    let st = screen_tile(t, shift);
    let a = sprite_rect(k);
    let m = after_move(k, Axis::Y);
    let r = sprite_rect(m);
    lemma_small_step(k.y as int, k.vy as int);
    lemma_single_tile_hit(t, r, shift);
    if overlaps(st, r) {
        assert(k.falling);
        assert(m.y == k.y + k.vy);
        assert(is_screen_tile(st));
        if k.vy > 0 {
            assert(a.y + TILE_SIZE <= st.y);
        } else {
            assert(a.y >= st.y + TILE_SIZE);
        }
        lemma_player_stops_flush(m, st);
    }
}

/// Axis-separated resolution keeps actors out of solid geometry: on a map of
/// one tile, an actor that starts a frame clear of the tile, moving less than
/// a tile per tick, is still clear of it after the `X` pass and after the `Y`
/// pass; each pass stops motion along its own axis only. Left out: a rise
/// slower than one tick of gravity, which the `Y` response, reading the speed
/// after gravity, takes for a fall.
pub proof fn lemma_passes_keep_clear(k: Kinematics, t: Rect, shift: int)
    requires
        small_motion(k),
        !(-GRAVITY_PER_TICK < k.vy < 0),
        near_tile(t, shift),
        !overlaps(screen_tile(t, shift), sprite_rect(k)),
    ensures
        ({
            let kx = resolved::<Mario>(k, Axis::X, seq![t], shift);
            let ky = resolved::<Mario>(kx, Axis::Y, seq![t], shift);
            &&& !overlaps(screen_tile(t, shift), sprite_rect(kx))
            &&& !overlaps(screen_tile(t, shift), sprite_rect(ky))
            &&& kx.y == k.y && kx.vy == k.vy && kx.falling == k.falling
            &&& ky.x == kx.x && ky.vx == kx.vx
        }),
        ({
            let kx = resolved::<Enemy>(k, Axis::X, seq![t], shift);
            let ky = resolved::<Enemy>(kx, Axis::Y, seq![t], shift);
            &&& !overlaps(screen_tile(t, shift), sprite_rect(kx))
            &&& !overlaps(screen_tile(t, shift), sprite_rect(ky))
            &&& kx.y == k.y && kx.vy == k.vy && kx.falling == k.falling
            &&& ky.x == kx.x && ky.vx == kx.vx
        }),
{
    lemma_x_pass_clear(k, t, shift, false);
    lemma_x_pass_clear(k, t, shift, true);
    let kp = resolved::<Mario>(k, Axis::X, seq![t], shift);
    let ke = resolved::<Enemy>(k, Axis::X, seq![t], shift);
    lemma_y_pass_clear(kp, t, shift, false);
    lemma_y_pass_clear(ke, t, shift, true);
}

} // verus!
