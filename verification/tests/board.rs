use noughts_and_crosses::board::{Board, GameSummary, Tile};

#[test]
fn test_cross_win_row_0() {
    assert!(
        Board::from_rows([[Tile::Cross; 3], [Tile::Unplayed; 3], [Tile::Unplayed; 3]]).summary()
            == GameSummary::CrossWin
    )
}

#[test]
fn test_nought_win_row_2() {
    assert!(
        Board::from_rows([[Tile::Unplayed; 3], [Tile::Unplayed; 3], [Tile::Nought; 3]]).summary()
            == GameSummary::NoughtWin
    )
}

#[test]
fn test_cross_win_col_0() {
    assert!(
        Board::from_rows([
            [Tile::Cross, Tile::Unplayed, Tile::Unplayed],
            [Tile::Cross, Tile::Unplayed, Tile::Unplayed],
            [Tile::Cross, Tile::Unplayed, Tile::Unplayed],
        ])
        .summary()
            == GameSummary::CrossWin
    )
}

#[test]
fn test_cross_win_diagonal() {
    assert!(
        Board::from_rows([
            [Tile::Cross, Tile::Unplayed, Tile::Unplayed],
            [Tile::Unplayed, Tile::Cross, Tile::Unplayed],
            [Tile::Unplayed, Tile::Unplayed, Tile::Cross],
        ])
        .summary()
            == GameSummary::CrossWin
    )
}

#[test]
fn test_nought_win_reverse_diagonal() {
    assert!(
        Board::from_rows([
            [Tile::Cross, Tile::Cross, Tile::Nought],
            [Tile::Cross, Tile::Nought, Tile::Cross],
            [Tile::Nought, Tile::Cross, Tile::Cross],
        ])
        .summary()
            == GameSummary::NoughtWin
    )
}

#[test]
fn test_empty_in_progress() {
    assert!(
        Board::from_rows([[Tile::Unplayed; 3], [Tile::Unplayed; 3], [Tile::Unplayed; 3]])
            .summary()
            == GameSummary::InProgress
    )
}

#[test]
fn test_full_tie() {
    assert!(
        Board::from_rows([
            [Tile::Nought, Tile::Cross, Tile::Nought],
            [Tile::Nought, Tile::Cross, Tile::Nought],
            [Tile::Cross, Tile::Nought, Tile::Cross],
        ])
        .summary()
            == GameSummary::Tie
    )
}

#[test]
fn set_and_clear_round_trip() {
    let mut b = Board::new();
    assert_eq!(b.summary(), GameSummary::InProgress);
    b.set(1, 2, Tile::Nought);
    assert_eq!(b.get(1, 2), Tile::Nought);
    assert_eq!(b.get(2, 1), Tile::Unplayed);
    b.clear();
    assert_eq!(b, Board::new());
}

#[test]
fn tile_predicates() {
    assert!(Tile::Cross.is_cross());
    assert!(!Tile::Cross.is_nought());
    assert!(Tile::Nought.is_nought());
    assert!(Tile::Unplayed.is_unplayed());
    assert!(!Tile::Unplayed.is_cross());
}

#[test]
fn summary_is_finished() {
    assert!(!GameSummary::InProgress.is_finished());
    assert!(GameSummary::CrossWin.is_finished());
    assert!(GameSummary::NoughtWin.is_finished());
    assert!(GameSummary::Tie.is_finished());
}

#[test]
fn summary_is_a_function_of_the_grid() {
    let rows = [
        [Tile::Cross, Tile::Nought, Tile::Unplayed],
        [Tile::Unplayed, Tile::Cross, Tile::Unplayed],
        [Tile::Nought, Tile::Unplayed, Tile::Unplayed],
    ];
    let a = Board::from_rows(rows);
    let b = Board::from_rows(rows);
    assert_eq!(a.summary(), b.summary());
    assert_eq!(a.summary(), GameSummary::InProgress);
}
