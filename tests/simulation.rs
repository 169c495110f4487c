use rario::geometry::Rect;
use rario::mapgen::{map_to_rects, MapError};
use rario::ratelimiter::RateLimiter;
use rario::sprites::{Axis, Enemy, Keys, Mario, Outcome, Sprite};
use rario::units::{
    sat_add, to_pixel, DEAD_ZONE, FRICTION, GRAVITY_PER_TICK, JUMP_SPEED, MAX_SCROLL, MAX_SPEED,
    UNITS_PER_PIXEL, WALK_ACCEL,
};
use rario::world::{collide_axis, scroll_background, World};

const PX: i64 = UNITS_PER_PIXEL;

fn no_keys() -> Keys {
    Keys { left: false, right: false, up: false }
}

fn tile(x: i32, y: i32) -> Rect {
    Rect::new(x, y, 16, 16)
}

/// A floor of tiles on map row 12, whose top is at pixel 200.
fn floor(columns: i32) -> Vec<Rect> {
    (0..columns).map(|c| tile(c * 16, 12 * 16 + 8)).collect()
}

fn grounded_player(x_px: i64, vx: i64) -> Mario {
    Mario { x: x_px * PX, y: 184 * PX, vx, vy: 0, falling: false }
}

#[test]
fn map_parser_places_tiles_by_row_and_column() {
    let tiles = map_to_rects(".#.\n..#".as_bytes()).unwrap();
    assert_eq!(tiles, vec![tile(16, 8), tile(32, 24)]);
}

#[test]
fn map_parser_skips_empty_lines_and_crlf() {
    let tiles = map_to_rects("#\r\n\n.x\n\n".as_bytes()).unwrap();
    assert_eq!(tiles, vec![tile(0, 8), tile(16, 40)]);
    assert_eq!(map_to_rects("".as_bytes()).unwrap(), vec![]);
    assert_eq!(map_to_rects("...\n...".as_bytes()).unwrap(), vec![]);
}

#[test]
fn map_parser_refuses_non_ascii() {
    let r = map_to_rects("..\n.é#".as_bytes());
    assert_eq!(r, Err(MapError::NonAscii { offset: 4 }));
}

#[test]
fn rect_intersection_is_strict() {
    let a = tile(0, 0);
    assert!(a.has_intersection(&tile(15, 15)));
    assert_eq!(a.intersection(&tile(10, 12)), Some(Rect::new(10, 12, 6, 4)));
    assert!(!a.has_intersection(&tile(16, 0)));
    assert_eq!(a.intersection(&tile(0, 16)), None);
    assert!(!a.has_intersection(&Rect::new(4, 4, 0, 5)));
}

#[test]
fn pixels_truncate_toward_zero() {
    assert_eq!(to_pixel(PX * 3 + PX / 2), 3);
    assert_eq!(to_pixel(-PX / 2), 0);
    assert_eq!(to_pixel(-PX * 3 - 1), -3);
    assert_eq!(to_pixel(i64::MAX), i32::MAX);
    assert_eq!(to_pixel(i64::MIN), i32::MIN);
    assert_eq!(sat_add(i64::MAX, 1), i64::MAX);
    assert_eq!(sat_add(-5, 3), -2);
}

#[test]
fn move_dir_accelerates_and_clamps() {
    let mut m = Mario::new();
    m.move_dir(1);
    assert_eq!(m.vx, WALK_ACCEL);
    m.move_dir(-1);
    m.move_dir(-1);
    assert_eq!(m.vx, -WALK_ACCEL);
    for _ in 0..200 {
        m.move_dir(1);
        assert!(m.vx >= -MAX_SPEED && m.vx <= MAX_SPEED);
    }
    assert_eq!(m.vx, MAX_SPEED);
    for d in [-1, 0, 1, -1, -1] {
        m.move_dir(d);
        assert!(m.vx >= -MAX_SPEED && m.vx <= MAX_SPEED);
    }
    let mut e = Enemy::new();
    e.move_dir(-20);
    assert_eq!(e.vx, -20 * WALK_ACCEL);
    e.move_dir(-100);
    assert_eq!(e.vx, -MAX_SPEED);
}

#[test]
fn jump_twice_in_the_air_changes_nothing() {
    let mut m = Mario::new();
    m.jump();
    assert_eq!(m.vy, -JUMP_SPEED);
    assert!(m.falling);
    m.set_vy(-JUMP_SPEED + GRAVITY_PER_TICK);
    m.jump();
    assert_eq!(m.vy, -JUMP_SPEED + GRAVITY_PER_TICK);
    assert!(m.falling);
}

#[test]
fn move_mutate_integrates_with_gravity() {
    let mut m = Mario::new();
    m.set_vx(3);
    m.move_mutate(Axis::X);
    assert_eq!(m.x, 3);
    m.move_mutate(Axis::Y);
    assert_eq!((m.y, m.vy), (0, 0));
    m.set_falling(true);
    m.set_vy(10);
    m.move_mutate(Axis::Y);
    assert_eq!((m.y, m.vy), (10, 10 + GRAVITY_PER_TICK));
}

#[test]
fn player_walking_right_stops_at_tile_left_face() {
    let mut m = Mario { x: 40 * PX, y: 184 * PX, vx: 2 * PX / 3, vy: 0, falling: true };
    m.x = 24 * PX + PX / 2;
    let tiles = vec![tile(40, 184)];
    collide_axis(&mut m, Axis::X, &tiles, 0);
    assert_eq!(m.x, 24 * PX);
    assert_eq!(m.vx, 0);
    assert_eq!(m.rect(), Rect::new(24, 184, 16, 16));
    assert!(!m.rect().has_intersection(&tiles[0]));
}

#[test]
fn diagonal_move_into_corner_stops_each_axis_once() {
    // Moving right and down onto the top-left corner of a tile: the `X` pass
    // finds no overlap, the `Y` pass lands the player on the tile.
    let tiles = vec![tile(40, 100)];
    let mut m = Mario { x: 24 * PX + PX / 2, y: 84 * PX + PX / 2, vx: PX, vy: PX, falling: true };
    collide_axis(&mut m, Axis::X, &tiles, 0);
    assert_eq!((m.x, m.vx, m.vy), (25 * PX + PX / 2, PX, PX));
    collide_axis(&mut m, Axis::Y, &tiles, 0);
    assert_eq!((m.y, m.vy, m.falling), (84 * PX, 0, false));
    assert_eq!((m.x, m.vx), (25 * PX + PX / 2, PX));
    assert!(!m.rect().has_intersection(&tiles[0]));
    // Moving right and down into the left face of a tile: the `X` pass stops
    // the player, the `Y` pass then moves it down beside the tile.
    let mut m = Mario { x: 24 * PX + PX / 2, y: 90 * PX, vx: PX, vy: PX, falling: true };
    collide_axis(&mut m, Axis::X, &tiles, 0);
    assert_eq!((m.x, m.vx, m.vy), (24 * PX, 0, PX));
    collide_axis(&mut m, Axis::Y, &tiles, 0);
    assert_eq!((m.x, m.y, m.vy), (24 * PX, 91 * PX, PX + GRAVITY_PER_TICK));
    assert!(!m.rect().has_intersection(&tiles[0]));
}

#[test]
fn player_landing_and_ceiling() {
    let mut m = Mario { x: 0, y: 90 * PX, vx: 0, vy: PX, falling: true };
    m.handle_coll(Axis::Y, Rect::new(0, 100, 16, 6));
    assert_eq!((m.y, m.vy, m.falling), (84 * PX, 0, false));
    let mut m = Mario { x: 0, y: 110 * PX, vx: 0, vy: -PX, falling: true };
    m.handle_coll(Axis::Y, Rect::new(0, 110, 16, 6));
    assert_eq!((m.y, m.vy, m.falling), (116 * PX, 0, true));
    let mut m = Mario { x: 0, y: 110 * PX, vx: 0, vy: -PX, falling: false };
    m.handle_coll(Axis::Y, Rect::new(0, 110, 16, 6));
    assert_eq!((m.y, m.vy, m.falling), (110 * PX, -PX, false));
}

#[test]
fn enemy_bounces_off_tiles() {
    let tiles = vec![tile(40, 100)];
    let mut e = Enemy { x: 56 * PX + PX / 4, y: 100 * PX, vx: -PX / 2, vy: 0, falling: false };
    collide_axis(&mut e, Axis::X, &tiles, 0);
    assert!(e.vx > 0);
    assert_eq!(e.vx, PX / 2);
    assert_eq!(e.x, 56 * PX);
    let mut e = Enemy { x: 24 * PX + PX / 2, y: 100 * PX, vx: PX / 2, vy: 0, falling: false };
    collide_axis(&mut e, Axis::X, &tiles, 0);
    assert_eq!(e.vx, -PX / 2);
    assert_eq!(e.x, 24 * PX);
}

#[test]
fn player_friction_and_bounds() {
    let mut m = grounded_player(40, PX);
    assert_eq!(m.update(no_keys()), Outcome::Running);
    assert_eq!(m.vx, PX - FRICTION);
    assert!(m.falling);
    let mut m = grounded_player(40, -PX);
    m.update(no_keys());
    assert_eq!(m.vx, -PX + FRICTION);
    let mut m = grounded_player(40, FRICTION);
    m.update(no_keys());
    assert_eq!(m.vx, 0);
    let mut m = grounded_player(40, PX);
    m.update(Keys { left: false, right: true, up: false });
    assert_eq!(m.vx, PX);
    let mut m = Mario { x: -2 * PX, y: 0, vx: -PX, vy: 0, falling: true };
    m.update(no_keys());
    assert_eq!((m.x, m.vx), (0, 0));
    let mut m = Mario { x: 300 * PX, y: 0, vx: PX, vy: 0, falling: true };
    m.update(no_keys());
    assert_eq!((m.x, m.vx), (238 * PX, PX));
}

#[test]
fn enemy_update_only_rearms_falling() {
    let mut e = Enemy { x: -900 * PX, y: 900 * PX, vx: 5, vy: 6, falling: false };
    assert_eq!(e.update(no_keys()), Outcome::Running);
    assert_eq!(e, Enemy { x: -900 * PX, y: 900 * PX, vx: 5, vy: 6, falling: true });
}

#[test]
fn scroll_moves_world_not_player() {
    let mut x_back: i64 = 10;
    let mut m = grounded_player(85, 0);
    let mut enemies = vec![Enemy { x: 100 * PX, y: 0, vx: 0, vy: 0, falling: true }];
    scroll_background(&mut x_back, &mut m, &mut enemies);
    assert_eq!(x_back, 10 + 5 * PX);
    assert_eq!(m.x, DEAD_ZONE);
    assert_eq!(enemies[0].x, 95 * PX);
    let mut m = grounded_player(60, 0);
    scroll_background(&mut x_back, &mut m, &mut enemies);
    assert_eq!(x_back, 10 + 5 * PX);
    assert_eq!(m.x, 60 * PX);
    let mut x_back = MAX_SCROLL - PX;
    let mut m = grounded_player(90, 0);
    scroll_background(&mut x_back, &mut m, &mut enemies);
    assert_eq!(x_back, MAX_SCROLL);
    assert_eq!(enemies[0].x, 85 * PX);
}

#[test]
fn camera_follows_in_dead_zone_until_level_end() {
    let start = MAX_SCROLL - 20 * PX;
    let mut w = World::new(grounded_player(80, PX / 2), vec![], floor(220));
    w.x_back = start;
    let right = Keys { left: false, right: true, up: false };
    let mut capped = false;
    for _ in 0..40 {
        let x_before = w.player.x;
        let back_before = w.x_back;
        assert_eq!(w.step(right), Outcome::Running);
        // Pinned on the dead-zone column, then moved by one tick of speed.
        assert_eq!(w.player.x - w.player.vx, DEAD_ZONE);
        if x_before > DEAD_ZONE {
            let expected = back_before + (x_before - DEAD_ZONE);
            if expected <= MAX_SCROLL {
                assert_eq!(w.x_back, expected);
            } else {
                assert_eq!(w.x_back, MAX_SCROLL);
            }
        }
        if capped {
            assert_eq!(w.x_back, MAX_SCROLL);
        }
        capped = w.x_back == MAX_SCROLL;
    }
    assert!(capped);
}

#[test]
fn player_at_rest_stays_grounded() {
    let mut w = World::new(grounded_player(40, 0), vec![], floor(20));
    for _ in 0..10 {
        assert_eq!(w.step(no_keys()), Outcome::Running);
        assert_eq!(w.player.vx, 0);
        assert_eq!(w.player.rect().y, 184);
        assert_eq!(w.player.rect().x, 40);
    }
}

#[test]
fn grounded_player_slides_to_a_stop() {
    let mut w = World::new(grounded_player(40, 3 * PX / 10), vec![], floor(20));
    for _ in 0..10 {
        assert_eq!(w.step(no_keys()), Outcome::Running);
        assert_eq!(w.player.rect().y, 184);
    }
    assert_eq!(w.player.vx, 0);
}

#[test]
fn falling_below_window_is_reported_once() {
    let mut w = World::new(grounded_player(40, 0), vec![], floor(20));
    assert_eq!(w.step(no_keys()), Outcome::Running);
    w.player.y = 225 * PX;
    assert_eq!(w.step(no_keys()), Outcome::FellOffWorld);
    let mut m = Mario { x: 0, y: 224 * PX, vx: 0, vy: 0, falling: false };
    assert_eq!(m.update(no_keys()), Outcome::Running);
    m.y = 225 * PX;
    assert_eq!(m.update(no_keys()), Outcome::FellOffWorld);
}

#[test]
fn jump_from_ground_in_a_frame() {
    let mut w = World::new(grounded_player(40, 0), vec![], floor(20));
    assert_eq!(w.step(Keys { left: false, right: false, up: true }), Outcome::Running);
    assert_eq!(w.player.vy, -JUMP_SPEED);
    assert!(w.player.falling);
    w.step(no_keys());
    assert_eq!(w.player.y, 184 * PX - JUMP_SPEED);
    assert_eq!(w.player.vy, -JUMP_SPEED + GRAVITY_PER_TICK);
}

#[test]
fn enemy_patrols_between_walls_in_a_frame() {
    let mut tiles = floor(20);
    tiles.push(tile(96, 184));
    let e = Enemy { x: 80 * PX + 3 * PX / 4, y: 184 * PX, vx: PX / 2, vy: 0, falling: true };
    let mut w = World::new(grounded_player(40, 0), vec![e], tiles);
    w.step(no_keys());
    assert_eq!(w.enemies[0].x, 80 * PX);
    assert_eq!(w.enemies[0].vx, -PX / 2);
    assert!(w.enemies[0].falling);
}

#[test]
fn rate_limiter_waits_out_the_frame() {
    let mut r = RateLimiter::new(60);
    assert_eq!((r.fps, r.last_ticks), (60, 0));
    assert_eq!(r.limit(10), 6);
    assert_eq!(r.last_ticks, 10);
    assert_eq!(r.limit(40), 0);
    assert_eq!(r.limit(40), 16);
    let mut r = RateLimiter { fps: 60, last_ticks: u32::MAX - 2 };
    assert_eq!(r.limit(3), 10);
}
