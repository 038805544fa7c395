use langtons_ant::grid::Grid;
use langtons_ant::rules::Cell;

#[test]
fn new_grid_is_all_white_with_requested_dimensions() {
    let g = Grid::new(3, 5);
    assert_eq!(g.width, 3);
    assert_eq!(g.height, 5);
    for x in 0..3 {
        for y in 0..5 {
            assert_eq!(g.get(x, y), Cell::White);
        }
    }
}

#[test]
fn set_overwrites_one_cell_and_leaves_the_rest() {
    let mut g = Grid::new(4, 4);
    g.set(1, 2, Cell::Black);
    for x in 0..4 {
        for y in 0..4 {
            let expected = if (x, y) == (1, 2) { Cell::Black } else { Cell::White };
            assert_eq!(g.get(x, y), expected);
        }
    }
    g.set(1, 2, Cell::White);
    assert_eq!(g.get(1, 2), Cell::White);
}
