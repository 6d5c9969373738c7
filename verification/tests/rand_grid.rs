use yjump::grid::{gen_map, Cell, Grid, H, W};
use yjump::rand::Rand;

#[test]
fn first_draws_from_seed_five() {
    let mut r = Rand(5);
    assert_eq!(r.next(), 1351845);
    assert_eq!(r.0, 1351845);
}

#[test]
fn same_seed_same_map() {
    let mut a = Rand(5);
    let mut b = Rand(5);
    let ga = gen_map(&mut a);
    let gb = gen_map(&mut b);
    for y in 0..H {
        for x in 0..W {
            assert_eq!(ga.get(x, y), gb.get(x, y));
        }
    }
    assert_eq!(a.0, b.0);
}

#[test]
fn generated_border_is_wall() {
    let g = gen_map(&mut Rand(5));
    for x in 0..W {
        assert_eq!(g.get(x, 0), Some(Cell::Wall));
        assert_eq!(g.get(x, H - 1), Some(Cell::Wall));
    }
    for y in 0..H {
        assert_eq!(g.get(0, y), Some(Cell::Wall));
        assert_eq!(g.get(W - 1, y), Some(Cell::Wall));
    }
    for y in 1..H - 1 {
        for x in 1..W - 1 {
            assert_ne!(g.get(x, y), Some(Cell::Wall));
        }
    }
    assert_eq!(g.get(W, 0), None);
    assert_eq!(g.get(-1, 3), None);
}

#[test]
fn from_cells_checks_the_border() {
    let mut cells = vec![Cell::Air; 1920];
    assert!(Grid::from_cells(cells.clone()).is_none());
    for x in 0..80 {
        cells[x] = Cell::Wall;
        cells[x + 23 * 80] = Cell::Wall;
    }
    for y in 0..24 {
        cells[y * 80] = Cell::Wall;
        cells[79 + y * 80] = Cell::Wall;
    }
    assert!(Grid::from_cells(cells.clone()).is_some());
    cells.pop();
    assert!(Grid::from_cells(cells).is_none());
}

#[test]
fn stream_from_seed_five() {
    let mut r = Rand(5);
    let got: Vec<usize> = (0..5).map(|_| r.next()).collect();
    assert_eq!(
        got,
        vec![
            1351845,
            343935557125,
            92984404615662545,
            23786184417968590,
            11475863367439064919,
        ]
    );
}

#[test]
fn map_from_seed_five() {
    let mut r = Rand(5);
    let g = gen_map(&mut r);
    assert_eq!(r.0, 2504948300327026502);
    let mut solid = Vec::new();
    for y in 0..H {
        for x in 0..W {
            if g.get(x, y) == Some(Cell::Solid) {
                solid.push((x, y));
            }
        }
    }
    assert_eq!(solid.len(), 125);
    assert_eq!(
        solid[..12],
        [
            (28, 1), (29, 1), (30, 1), (31, 1), (12, 2), (13, 2), (14, 2), (15, 2),
            (16, 2), (17, 2), (66, 2), (67, 2),
        ]
    );
    let row: String = (0..W)
        .map(|x| match g.cell(x, 2) {
            Cell::Air => 'A',
            Cell::Solid => 'S',
            Cell::Wall => 'W',
        })
        .collect();
    assert_eq!(
        row,
        "WAAAAAAAAAAASSSSSSAAAAAAAAAAAAAAAAAAAAAAAAAAAAAAAAAAAAAAAAAAAAAAAASSSSSSAAASSSSW"
    );
}

#[test]
fn platforms_are_four_or_six_cells_clipped_to_the_interior() {
    // Every run of rubble in a row is made of platforms of 4 or 6 cells, so
    // away from the border no run is shorter than 4.
    for seed in [1usize, 5, 9, 77, 4242] {
        let g = gen_map(&mut Rand(seed));
        for y in 1..H - 1 {
            let mut x = 1;
            while x < W - 1 {
                if g.get(x, y) == Some(Cell::Solid) {
                    let start = x;
                    while x < W - 1 && g.get(x, y) == Some(Cell::Solid) {
                        x += 1;
                    }
                    let clipped = start == 1 || x == W - 1;
                    assert!(clipped || x - start >= 4, "seed {} row {} at {}", seed, y, start);
                } else {
                    x += 1;
                }
            }
        }
    }
}
