use yjump::actor::{press, update_char, Actor, Dash, Heading};
use yjump::grid::{Cell, Grid, Pos};
use yjump::particle::Particle;
use yjump::pixel::Color;
use yjump::rand::Rand;

fn bordered(solids: &[(usize, usize)]) -> Grid {
    let mut cells = vec![Cell::Air; 1920];
    for x in 0..80 {
        cells[x] = Cell::Wall;
        cells[x + 23 * 80] = Cell::Wall;
    }
    for y in 0..24 {
        cells[y * 80] = Cell::Wall;
        cells[79 + y * 80] = Cell::Wall;
    }
    for &(x, y) in solids {
        cells[x + y * 80] = Cell::Solid;
    }
    Grid::from_cells(cells).unwrap()
}

fn standing(x: isize, y: isize, is_player: bool) -> Actor {
    Actor {
        pos: Pos { x, y },
        old_pos: Pos { x, y },
        right_power: 0,
        last_power_frame: 0,
        jump: 0,
        double_jump_ready: true,
        fly: false,
        down: false,
        dy: 0,
        dx: 0,
        is_player,
        dash: Dash::Ready,
        phase: 0,
    }
}

fn follow(
    actor: &mut Actor,
    map: &mut Grid,
    first_frame: isize,
    expected: &[(isize, isize, isize, bool)],
    rand: &mut Rand,
    particles: &mut Vec<Particle>,
) {
    for (k, want) in expected.iter().enumerate() {
        update_char(actor, first_frame + k as isize, map, rand, particles);
        assert_eq!((actor.pos.x, actor.pos.y, actor.dy, actor.fly), *want, "tick {}", k);
    }
}

const STRAIGHT_JUMP: [(isize, isize, isize, bool); 60] = [
    (10, 21, -6, true), (10, 20, -6, true), (10, 19, -5, true), (10, 18, -5, true),
    (10, 17, -5, true), (10, 16, -4, true), (10, 16, -4, true), (10, 16, -4, true),
    (10, 15, -3, true), (10, 15, -3, true), (10, 15, -3, true), (10, 14, -2, true),
    (10, 14, -2, true), (10, 14, -2, true), (10, 13, -1, true), (10, 13, -1, true),
    (10, 13, -1, true), (10, 12, 0, true), (10, 12, 0, true), (10, 12, 0, true),
    (10, 12, 1, true), (10, 12, 1, true), (10, 12, 1, true), (10, 13, 2, true),
    (10, 13, 2, true), (10, 13, 2, true), (10, 14, 3, true), (10, 14, 3, true),
    (10, 14, 3, true), (10, 15, 4, true), (10, 15, 4, true), (10, 15, 4, true),
    (10, 16, 5, true), (10, 17, 5, true), (10, 18, 5, true), (10, 19, 6, true),
    (10, 20, 6, true), (10, 21, 6, true), (10, 22, 7, true), (10, 22, 0, false),
    (10, 22, 0, false), (10, 22, 0, false), (10, 22, 0, false), (10, 22, 0, false),
    (10, 22, 0, false), (10, 22, 0, false), (10, 22, 0, false), (10, 22, 0, false),
    (10, 22, 0, false), (10, 22, 0, false), (10, 22, 0, false), (10, 22, 0, false),
    (10, 22, 0, false), (10, 22, 0, false), (10, 22, 0, false), (10, 22, 0, false),
    (10, 22, 0, false), (10, 22, 0, false), (10, 22, 0, false), (10, 22, 0, false),
];

const STEERED_JUMP: [(isize, isize, isize, bool); 60] = [
    (10, 21, -5, true), (10, 20, -5, true), (11, 19, -4, true), (11, 19, -4, true),
    (11, 19, -4, true), (12, 18, -3, true), (12, 18, -3, true), (12, 18, -3, true),
    (13, 17, -2, true), (13, 17, -2, true), (13, 17, -2, true), (14, 16, -1, true),
    (14, 16, -1, true), (14, 16, -1, true), (15, 15, 0, true), (15, 15, 0, true),
    (15, 15, 0, true), (16, 15, 1, true), (16, 15, 1, true), (16, 15, 1, true),
    (17, 16, 2, true), (17, 16, 2, true), (17, 16, 2, true), (18, 17, 3, true),
    (18, 17, 3, true), (18, 17, 3, true), (19, 18, 4, true), (19, 18, 4, true),
    (19, 18, 4, true), (20, 19, 5, true), (20, 20, 5, true), (20, 21, 5, true),
    (21, 22, 6, true), (21, 22, 0, false), (21, 22, 0, false), (21, 22, 0, false),
    (21, 22, 0, false), (21, 22, 0, false), (21, 22, 0, false), (21, 22, 0, false),
    (21, 22, 0, false), (21, 22, 0, false), (21, 22, 0, false), (21, 22, 0, false),
    (21, 22, 0, false), (21, 22, 0, false), (21, 22, 0, false), (21, 22, 0, false),
    (21, 22, 0, false), (21, 22, 0, false), (21, 22, 0, false), (21, 22, 0, false),
    (21, 22, 0, false), (21, 22, 0, false), (21, 22, 0, false), (21, 22, 0, false),
    (21, 22, 0, false), (21, 22, 0, false), (21, 22, 0, false), (21, 22, 0, false),
];

const LEDGE_FALL: [(isize, isize, isize, bool); 50] = [
    (20, 10, 0, true), (20, 10, 0, true), (20, 10, 1, true), (20, 10, 1, true),
    (20, 10, 1, true), (20, 11, 2, true), (20, 11, 2, true), (20, 11, 2, true),
    (20, 12, 3, true), (20, 12, 3, true), (20, 12, 3, true), (20, 13, 4, true),
    (20, 13, 4, true), (20, 13, 4, true), (20, 14, 5, true), (20, 15, 5, true),
    (20, 16, 5, true), (20, 17, 6, true), (20, 18, 6, true), (20, 19, 6, true),
    (20, 20, 7, true), (20, 21, 7, true), (20, 22, 7, true), (20, 22, 0, false),
    (20, 22, 0, false), (20, 22, 0, false), (20, 22, 0, false), (20, 22, 0, false),
    (20, 22, 0, false), (20, 22, 0, false), (20, 22, 0, false), (20, 22, 0, false),
    (20, 22, 0, false), (20, 22, 0, false), (20, 22, 0, false), (20, 22, 0, false),
    (20, 22, 0, false), (20, 22, 0, false), (20, 22, 0, false), (20, 22, 0, false),
    (20, 22, 0, false), (20, 22, 0, false), (20, 22, 0, false), (20, 22, 0, false),
    (20, 22, 0, false), (20, 22, 0, false), (20, 22, 0, false), (20, 22, 0, false),
    (20, 22, 0, false), (20, 22, 0, false),
];

const FAST_FALL: [(isize, isize, isize, bool); 30] = [
    (10, 21, -5, true), (10, 20, -5, true), (11, 19, -4, true), (11, 19, 0, true),
    (11, 19, 0, true), (11, 19, 1, true), (11, 19, 1, true), (11, 19, 1, true),
    (11, 20, 2, true), (11, 20, 2, true), (11, 20, 2, true), (11, 21, 3, true),
    (11, 21, 3, true), (11, 21, 3, true), (11, 22, 4, true), (11, 22, 4, true),
    (11, 22, 4, true), (11, 22, 0, false), (11, 22, 0, false), (11, 22, 0, false),
    (11, 22, 0, false), (11, 22, 0, false), (11, 22, 0, false), (11, 22, 0, false),
    (11, 22, 0, false), (11, 22, 0, false), (11, 22, 0, false), (11, 22, 0, false),
    (11, 22, 0, false), (11, 22, 0, false),
];

const DOUBLE_JUMP: [(isize, isize, isize, bool); 12] = [
    (10, 21, -6, true), (10, 20, -6, true), (10, 19, -5, true), (10, 18, -5, true),
    (10, 17, -5, true), (10, 16, -5, true), (10, 15, -5, true), (10, 14, -5, true),
    (10, 13, -4, true), (10, 13, -4, true), (10, 13, -4, true), (10, 12, -3, true),
];

#[test]
fn straight_jump_rises_by_six_and_lands_where_it_started() {
    let mut map = bordered(&[]);
    let mut a = standing(10, 22, true);
    a.jump = 10;
    let mut rand = Rand(5);
    let mut particles = Vec::new();
    follow(&mut a, &mut map, 7, &STRAIGHT_JUMP, &mut rand, &mut particles);
    assert_eq!(a.phase, 7);
    assert_eq!(a.dx, 0);
    assert!(a.double_jump_ready);
    assert_eq!(particles.len(), 10);
    assert_eq!(rand.0, 9407066044406738307);
}

#[test]
fn steered_jump_rises_by_five_and_drifts_every_third_tick() {
    let mut map = bordered(&[]);
    let mut a = standing(10, 22, true);
    a.jump = 10;
    a.right_power = 1;
    let mut rand = Rand(5);
    let mut particles = Vec::new();
    follow(&mut a, &mut map, 7, &STEERED_JUMP, &mut rand, &mut particles);
    assert_eq!(a.pos, Pos { x: 21, y: 22 });
    assert_eq!(a.dx, 0);
    assert_eq!(particles.len(), 10);
}

#[test]
fn first_tick_of_a_jump() {
    let mut map = bordered(&[]);
    let mut a = standing(10, 22, true);
    a.jump = 10;
    a.double_jump_ready = false;
    let mut rand = Rand(5);
    let mut particles = Vec::new();
    update_char(&mut a, 7, &mut map, &mut rand, &mut particles);
    assert_eq!(
        a,
        Actor {
            pos: Pos { x: 10, y: 21 },
            old_pos: Pos { x: 10, y: 22 },
            right_power: 0,
            last_power_frame: 0,
            jump: 0,
            double_jump_ready: true,
            fly: true,
            down: false,
            dy: -6,
            dx: 0,
            is_player: true,
            dash: Dash::Ready,
            phase: 7,
        }
    );
    assert_eq!(particles.len(), 5);
    assert!(particles.iter().all(|p| p.p == Pos { x: 10, y: 22 } && p.color == Color::Yellow));
}

#[test]
fn grounded_actor_on_a_platform_stays() {
    let mut map = bordered(&[(20, 11)]);
    let mut a = standing(20, 10, true);
    let before = a;
    let mut rand = Rand(5);
    let mut particles = Vec::new();
    for f in 5..8 {
        update_char(&mut a, f, &mut map, &mut rand, &mut particles);
        assert_eq!(a, before);
    }
    assert!(particles.is_empty());
    assert_eq!(rand.0, 5);
}

#[test]
fn actor_with_nothing_below_falls_and_lands() {
    let mut map = bordered(&[]);
    let mut a = standing(20, 10, false);
    let mut rand = Rand(5);
    let mut particles = Vec::new();
    follow(&mut a, &mut map, 5, &LEDGE_FALL, &mut rand, &mut particles);
    assert_eq!(a.phase, 5);
    assert_eq!(particles.len(), 10);
    let first: Vec<(isize, isize, isize, char)> =
        particles[..5].iter().map(|p| (p.dx, p.dy, p.life, p.kind)).collect();
    assert_eq!(
        first,
        vec![
            (2, -3, 15, '\''),
            (0, -1, 10, '\u{a8}'),
            (2, 1, 15, '\u{a8}'),
            (0, -3, 19, '\u{a4}'),
            (-3, -3, 18, '.'),
        ]
    );
    assert!(particles[..5].iter().all(|p| p.p == Pos { x: 20, y: 10 } && p.color == Color::Green));
    assert!(particles[5..].iter().all(|p| p.p == Pos { x: 20, y: 22 } && p.color == Color::Green));
}

#[test]
fn landing_grounds_the_actor_in_the_same_tick() {
    for below in [Cell::Solid, Cell::Wall] {
        let (mut map, y) = match below {
            Cell::Solid => (bordered(&[(30, 11)]), 10),
            _ => (bordered(&[]), 22),
        };
        let mut a = standing(30, y, true);
        a.fly = true;
        a.dy = 1;
        a.dx = 1;
        a.right_power = 1;
        a.phase = 0;
        let mut rand = Rand(9);
        let mut particles = Vec::new();
        // Frame 1 is off the cadence and the actor is slow: nothing moves.
        update_char(&mut a, 1, &mut map, &mut rand, &mut particles);
        assert!(a.fly);
        assert_eq!((a.pos, a.dy, a.dx), (Pos { x: 30, y }, 1, 1));
        // Frame 2 is on the cadence: the actor drifts, finds the floor, lands.
        map = match below {
            Cell::Solid => bordered(&[(31, 11)]),
            _ => map,
        };
        update_char(&mut a, 2, &mut map, &mut rand, &mut particles);
        assert!(!a.fly);
        assert_eq!((a.pos, a.dy, a.dx), (Pos { x: 31, y }, 0, 0));
        assert_eq!(particles.len(), 5);
        assert!(particles.iter().all(|p| p.p == Pos { x: 31, y }));
    }
}

#[test]
fn fast_actor_lands_off_the_cadence() {
    let mut map = bordered(&[(30, 11)]);
    let mut a = standing(30, 10, true);
    a.fly = true;
    a.dy = 5;
    let mut rand = Rand(9);
    let mut particles = Vec::new();
    update_char(&mut a, 1, &mut map, &mut rand, &mut particles);
    assert!(!a.fly);
    assert_eq!((a.pos, a.dy, a.dx), (Pos { x: 30, y: 10 }, 0, 0));
}

#[test]
fn rising_actor_passes_rubble_and_stops_at_wall() {
    let column: Vec<(usize, usize)> = (1..8).map(|y| (10, y)).collect();
    let mut map = bordered(&column);
    let mut a = standing(10, 8, false);
    a.fly = true;
    a.dy = -6;
    let mut rand = Rand(5);
    let mut particles = Vec::new();
    let rows: [(isize, isize); 12] = [
        (7, -6), (6, -5), (5, -5), (4, -5), (3, -4), (3, -4),
        (3, -4), (2, -3), (2, -3), (2, -3), (1, -2), (1, -2),
    ];
    for (k, (y, dy)) in rows.iter().enumerate() {
        update_char(&mut a, 1 + k as isize, &mut map, &mut rand, &mut particles);
        assert_eq!((a.pos.x, a.pos.y, a.dy, a.fly), (10, *y, *dy, true), "tick {}", k);
    }
    // Row 0 is wall: the next step on the cadence stops the rise.
    update_char(&mut a, 13, &mut map, &mut rand, &mut particles);
    assert_eq!((a.pos.y, a.dy, a.fly), (1, -2, true));
    update_char(&mut a, 14, &mut map, &mut rand, &mut particles);
    assert_eq!((a.pos.y, a.dy, a.fly), (1, 1, true));
    assert!(particles.is_empty());
}

#[test]
fn rubble_above_does_not_stop_but_rubble_below_does() {
    let mut map = bordered(&[(10, 9), (10, 10), (10, 11)]);
    let mut up = standing(10, 12, true);
    up.fly = true;
    up.dy = -5;
    let mut rand = Rand(5);
    let mut particles = Vec::new();
    update_char(&mut up, 1, &mut map, &mut rand, &mut particles);
    assert_eq!((up.pos.y, up.dy, up.fly), (11, -5, true));
    let mut down = standing(10, 8, true);
    down.fly = true;
    down.dy = 5;
    update_char(&mut down, 1, &mut map, &mut rand, &mut particles);
    assert_eq!((down.pos.y, down.dy, down.fly), (8, 0, false));
}

#[test]
fn double_jump_replaces_the_velocity_once() {
    let mut map = bordered(&[]);
    let mut a = standing(10, 22, true);
    a.jump = 10;
    let mut rand = Rand(5);
    let mut particles = Vec::new();
    for (k, want) in DOUBLE_JUMP.iter().enumerate() {
        let frame = 7 + k as isize;
        if frame == 12 {
            a.jump = 10;
        }
        update_char(&mut a, frame, &mut map, &mut rand, &mut particles);
        assert_eq!((a.pos.x, a.pos.y, a.dy, a.fly), *want, "tick {}", k);
        if frame == 12 {
            assert!(!a.double_jump_ready);
            assert_eq!(a.jump, 9);
        }
    }
    assert_eq!(a.jump, 3);
    assert!(!a.double_jump_ready);
    assert_eq!(particles.len(), 5);
}

#[test]
fn fast_fall_cancels_the_rise_and_the_drift() {
    let mut map = bordered(&[]);
    let mut a = standing(10, 22, true);
    a.jump = 10;
    a.right_power = 1;
    let mut rand = Rand(5);
    let mut particles = Vec::new();
    for (k, want) in FAST_FALL.iter().enumerate() {
        let frame = 7 + k as isize;
        if frame == 10 {
            a.down = true;
            a.right_power = 0;
        }
        update_char(&mut a, frame, &mut map, &mut rand, &mut particles);
        assert_eq!((a.pos.x, a.pos.y, a.dy, a.fly), *want, "tick {}", k);
        assert!(!a.down);
        if frame == 10 {
            assert_eq!(a.dx, 0);
        }
    }
}

#[test]
fn fast_fall_adds_no_downward_speed() {
    let mut map = bordered(&[]);
    let mut a = standing(10, 5, true);
    a.fly = true;
    a.dy = 2;
    a.dx = 1;
    a.down = true;
    let mut rand = Rand(5);
    let mut particles = Vec::new();
    update_char(&mut a, 1, &mut map, &mut rand, &mut particles);
    assert_eq!((a.dy, a.dx, a.down), (2, 0, false));
}

#[test]
fn pending_jump_counts_down_to_zero() {
    let mut map = bordered(&[]);
    let mut a = standing(10, 5, true);
    a.fly = true;
    a.double_jump_ready = false;
    a.jump = 2;
    let mut rand = Rand(5);
    let mut particles = Vec::new();
    update_char(&mut a, 1, &mut map, &mut rand, &mut particles);
    assert_eq!(a.jump, 1);
    update_char(&mut a, 2, &mut map, &mut rand, &mut particles);
    assert_eq!(a.jump, 0);
    update_char(&mut a, 3, &mut map, &mut rand, &mut particles);
    assert_eq!(a.jump, 0);
}

#[test]
fn dash_slides_through_anything_and_ignores_gravity() {
    let rubble: Vec<(usize, usize)> = (71..79).map(|x| (x, 10)).collect();
    let mut map = bordered(&rubble);
    let mut a = standing(70, 10, true);
    a.right_power = 1;
    a.dash = Dash::Dashing(20);
    a.fly = true;
    a.dy = 3;
    let mut rand = Rand(5);
    let mut particles = Vec::new();
    for k in 0..20 {
        update_char(&mut a, 1 + k, &mut map, &mut rand, &mut particles);
        let x = if 71 + k < 78 { 71 + k } else { 78 };
        assert_eq!(a.pos, Pos { x, y: 10 }, "tick {}", k);
        assert_eq!((a.dy, a.dx), (0, 1));
        assert_eq!(a.dash, Dash::Dashing(19 - k as usize));
        assert!(a.fly);
    }
    assert!(particles.is_empty());
    assert_eq!(rand.0, 5);
    update_char(&mut a, 21, &mut map, &mut rand, &mut particles);
    assert_eq!(a.dash, Dash::Loading(60));
}

#[test]
fn dash_to_the_left_stops_at_the_border() {
    let mut map = bordered(&[]);
    let mut a = standing(3, 22, true);
    a.right_power = -1;
    a.dash = Dash::Dashing(5);
    let mut rand = Rand(5);
    let mut particles = Vec::new();
    let xs = [2, 1, 1, 1, 1];
    for (k, x) in xs.iter().enumerate() {
        update_char(&mut a, 1 + k as isize, &mut map, &mut rand, &mut particles);
        assert_eq!(a.pos.x, *x);
        assert_eq!(a.old_pos.x, if k == 0 { 3 } else { xs[k - 1] });
    }
}

#[test]
fn dash_runs_twenty_ticks_then_cools_for_sixty() {
    let mut map = bordered(&[]);
    let mut a = standing(10, 22, true);
    press(&mut a, Heading::Right, 100);
    assert_eq!(a.dash, Dash::Ready);
    assert_eq!((a.right_power, a.last_power_frame), (1, 100));
    press(&mut a, Heading::Right, 119);
    assert_eq!(a.dash, Dash::Dashing(20));
    assert_eq!(a.last_power_frame, 100);
    let mut rand = Rand(5);
    let mut particles = Vec::new();
    for k in 1..=100usize {
        update_char(&mut a, 119 + k as isize, &mut map, &mut rand, &mut particles);
        let want = if k <= 20 {
            Dash::Dashing(20 - k)
        } else if k <= 81 {
            Dash::Loading(81 - k)
        } else {
            Dash::Ready
        };
        assert_eq!(a.dash, want, "tick {}", k);
    }
    assert_eq!(a.pos, Pos { x: 30, y: 22 });
}

#[test]
fn slow_second_tap_only_steers() {
    let mut a = standing(10, 22, true);
    press(&mut a, Heading::Left, 100);
    press(&mut a, Heading::Left, 120);
    assert_eq!(a.dash, Dash::Ready);
    assert_eq!((a.right_power, a.last_power_frame), (-1, 120));
}

#[test]
fn tap_the_other_way_only_steers() {
    let mut a = standing(10, 22, true);
    press(&mut a, Heading::Left, 100);
    press(&mut a, Heading::Right, 101);
    assert_eq!(a.dash, Dash::Ready);
    assert_eq!((a.right_power, a.last_power_frame), (1, 101));
}

#[test]
fn dashing_and_cooling_actors_do_not_start_a_dash() {
    let mut a = standing(10, 22, true);
    a.right_power = 1;
    a.last_power_frame = 100;
    a.dash = Dash::Dashing(7);
    press(&mut a, Heading::Left, 101);
    assert_eq!((a.dash, a.right_power, a.last_power_frame), (Dash::Dashing(7), 1, 100));
    a.dash = Dash::Loading(7);
    press(&mut a, Heading::Right, 101);
    assert_eq!((a.dash, a.right_power, a.last_power_frame), (Dash::Loading(7), 1, 101));
    press(&mut a, Heading::Left, 102);
    assert_eq!((a.dash, a.right_power, a.last_power_frame), (Dash::Loading(7), -1, 102));
}

#[test]
fn actors_stay_inside_the_border() {
    let mut rand = Rand(77);
    let mut map = yjump::grid::gen_map(&mut rand);
    let mut a = standing(40, 22, true);
    let mut particles = Vec::new();
    let mut keys = Rand(3);
    for frame in 1..5000isize {
        match keys.next() % 16 {
            0 => press(&mut a, Heading::Left, frame),
            1 => press(&mut a, Heading::Right, frame),
            2 | 3 => a.jump = 10,
            4 => {
                a.down = true;
                a.right_power = 0;
            }
            _ => {}
        }
        let before = a.pos;
        update_char(&mut a, frame, &mut map, &mut rand, &mut particles);
        assert!(1 <= a.pos.x && a.pos.x <= 78, "frame {}", frame);
        assert!(1 <= a.pos.y && a.pos.y <= 22, "frame {}", frame);
        assert!(-6 <= a.dy && a.dy <= a.pos.y);
        assert!(a.fly || a.dy == 0);
        assert_eq!(a.old_pos, before);
        particles.clear();
    }
}
