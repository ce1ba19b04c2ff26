use tictactoe::board::{holds, Grid, Player, PlayerId};

fn grid_of(cells: [u8; 9]) -> Grid {
    let mut g = Grid::new();
    for i in 0..9 {
        g.grid[i] = match cells[i] {
            1 => Some(PlayerId::Player1),
            2 => Some(PlayerId::Player2),
            _ => None,
        };
    }
    g
}

fn count_marks(g: &Grid, p: PlayerId) -> usize {
    g.grid.iter().filter(|c| **c == Some(p)).count()
}

const LINES: [[usize; 3]; 8] = [
    [0, 1, 2],
    [3, 4, 5],
    [6, 7, 8],
    [0, 3, 6],
    [1, 4, 7],
    [2, 5, 8],
    [0, 4, 8],
    [2, 4, 6],
];

#[test]
fn new_grid_is_empty() {
    let g = Grid::new();
    assert!(g.grid.iter().all(|c| c.is_none()));
    assert!(!g.is_full());
    assert!(!Player::new(PlayerId::Player1).has_won(&g));
    assert!(!Player::new(PlayerId::Player2).has_won(&g));
}

#[test]
fn new_player_has_not_played() {
    let p = Player::new(PlayerId::Player2);
    assert!(p.id == PlayerId::Player2);
    assert!(!p.played);
}

#[test]
fn every_line_wins_for_its_owner_only() {
    for line in LINES.iter() {
        for (owner, other) in [
            (PlayerId::Player1, PlayerId::Player2),
            (PlayerId::Player2, PlayerId::Player1),
        ] {
            let mut g = Grid::new();
            for &i in line.iter() {
                g.grid[i] = Some(owner);
            }
            assert!(Player::new(owner).has_won(&g), "line {:?}", line);
            assert!(!Player::new(other).has_won(&g), "line {:?}", line);
        }
    }
}

#[test]
fn two_in_a_line_does_not_win() {
    let g = grid_of([1, 1, 0, 2, 2, 0, 0, 0, 0]);
    assert!(!Player::new(PlayerId::Player1).has_won(&g));
    assert!(!Player::new(PlayerId::Player2).has_won(&g));
}

#[test]
fn broken_lines_do_not_win() {
    // Three in a row across a row boundary is no line.
    let g = grid_of([0, 0, 1, 1, 1, 0, 0, 0, 0]);
    assert!(!Player::new(PlayerId::Player1).has_won(&g));
    // A bent shape is no line either.
    let g = grid_of([1, 1, 0, 0, 1, 0, 0, 0, 0]);
    assert!(!Player::new(PlayerId::Player1).has_won(&g));
}

#[test]
fn mixed_line_does_not_win() {
    let g = grid_of([1, 2, 1, 2, 1, 2, 2, 1, 2]);
    assert!(!Player::new(PlayerId::Player1).has_won(&g));
    assert!(!Player::new(PlayerId::Player2).has_won(&g));
    assert!(g.is_full());
}

#[test]
fn full_only_when_no_cell_is_free() {
    let g = grid_of([1, 2, 1, 2, 1, 2, 2, 1, 0]);
    assert!(!g.is_full());
    let g = grid_of([0, 2, 1, 2, 1, 2, 2, 1, 2]);
    assert!(!g.is_full());
    let g = grid_of([1, 1, 1, 1, 1, 1, 1, 1, 1]);
    assert!(g.is_full());
}

#[test]
fn win_needs_three_marks() {
    // Every grid with a winner holds at least three marks of the winner:
    // checked over all grids of the board.
    let mut code = [0u8; 9];
    for n in 0..19683u32 {
        let mut m = n;
        for i in 0..9 {
            code[i] = (m % 3) as u8;
            m /= 3;
        }
        let g = grid_of(code);
        for p in [PlayerId::Player1, PlayerId::Player2] {
            if Player::new(p).has_won(&g) {
                assert!(count_marks(&g, p) >= 3);
            }
        }
    }
}

#[test]
fn holds_compares_marks() {
    assert!(holds(Some(PlayerId::Player1), PlayerId::Player1));
    assert!(!holds(Some(PlayerId::Player2), PlayerId::Player1));
    assert!(!holds(None, PlayerId::Player2));
}

#[test]
fn player_numbers_and_indices() {
    assert_eq!(PlayerId::Player1.index(), 0);
    assert_eq!(PlayerId::Player2.index(), 1);
    assert_eq!(PlayerId::Player1.number(), 1);
    assert_eq!(PlayerId::Player2.number(), 2);
}
