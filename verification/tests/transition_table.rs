use langtons_ant::rules::{Cell, Heading};

const HEADINGS: [Heading; 4] = [Heading::Up, Heading::Down, Heading::Left, Heading::Right];

#[test]
fn flip_swaps_the_two_states() {
    assert_eq!(Cell::White.flip(), Cell::Black);
    assert_eq!(Cell::Black.flip(), Cell::White);
    assert_eq!(Cell::White.flip().flip(), Cell::White);
    assert_eq!(Cell::Black.flip().flip(), Cell::Black);
}

#[test]
fn turn_table_matches_the_rule() {
    assert_eq!(Heading::Up.turn(Cell::Black), Heading::Right);
    assert_eq!(Heading::Down.turn(Cell::Black), Heading::Left);
    assert_eq!(Heading::Left.turn(Cell::Black), Heading::Up);
    assert_eq!(Heading::Right.turn(Cell::Black), Heading::Down);
    assert_eq!(Heading::Up.turn(Cell::White), Heading::Left);
    assert_eq!(Heading::Down.turn(Cell::White), Heading::Right);
    assert_eq!(Heading::Left.turn(Cell::White), Heading::Down);
    assert_eq!(Heading::Right.turn(Cell::White), Heading::Up);
}

#[test]
fn move_table_matches_the_rule() {
    assert_eq!(Heading::Up.delta_x(Cell::Black), 1);
    assert_eq!(Heading::Down.delta_x(Cell::Black), -1);
    assert_eq!(Heading::Left.delta_y(Cell::Black), 1);
    assert_eq!(Heading::Right.delta_y(Cell::Black), -1);
    assert_eq!(Heading::Up.delta_x(Cell::White), -1);
    assert_eq!(Heading::Down.delta_x(Cell::White), 1);
    assert_eq!(Heading::Left.delta_y(Cell::White), -1);
    assert_eq!(Heading::Right.delta_y(Cell::White), 1);
    for h in HEADINGS {
        for c in [Cell::Black, Cell::White] {
            match h {
                Heading::Up | Heading::Down => assert_eq!(h.delta_y(c), 0),
                Heading::Left | Heading::Right => assert_eq!(h.delta_x(c), 0),
            }
        }
    }
}

#[test]
fn four_same_color_turns_return_heading() {
    for c in [Cell::Black, Cell::White] {
        for h in HEADINGS {
            assert_eq!(h.turn(c).turn(c).turn(c).turn(c), h);
        }
    }
}

#[test]
fn black_then_white_turn_restores_heading() {
    for h in HEADINGS {
        assert_eq!(h.turn(Cell::Black).turn(Cell::White), h);
    }
}
