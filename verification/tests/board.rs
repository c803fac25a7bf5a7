use gambling_simulator::{Sampler, SlotBoard, Symbol, SymbolType};

#[test]
fn new_board_has_its_dimensions() {
    let board = SlotBoard::new(3, 4);
    assert_eq!(board.get_dimensions(), (3, 4));
    for x in 0..3 {
        for y in 0..4 {
            assert!(!board.cell(x, y).locked);
        }
    }
}

#[test]
fn empty_board_is_allowed() {
    let mut board = SlotBoard::new(0, 0);
    assert_eq!(board.get_dimensions(), (0, 0));
    board.spin();
    assert_eq!(board.get_dimensions(), (0, 0));
}

#[test]
fn from_cells_keeps_the_cells() {
    let cells = vec![
        vec![
            Symbol { kind: SymbolType::Nine, locked: false },
            Symbol { kind: SymbolType::Wild, locked: true },
        ],
        vec![
            Symbol { kind: SymbolType::Cake, locked: false },
            Symbol { kind: SymbolType::Dragon, locked: false },
        ],
        vec![
            Symbol { kind: SymbolType::Ace, locked: true },
            Symbol { kind: SymbolType::Ten, locked: false },
        ],
    ];
    let board = SlotBoard::from_cells(cells.clone()).unwrap();
    assert_eq!(board.get_dimensions(), (3, 2));
    for x in 0..3 {
        for y in 0..2 {
            assert_eq!(*board.cell(x, y), cells[x][y]);
        }
    }
}

#[test]
fn from_cells_refuses_ragged_columns() {
    let cell = Symbol { kind: SymbolType::Nine, locked: false };
    assert!(SlotBoard::from_cells(vec![vec![cell, cell], vec![cell]]).is_none());
    assert!(SlotBoard::from_cells(vec![vec![], vec![cell]]).is_none());
    assert!(SlotBoard::from_cells(vec![]).is_some());
    assert_eq!(SlotBoard::from_cells(vec![vec![], vec![]]).unwrap().get_dimensions(), (2, 0));
}

#[test]
fn refresh_keeps_locked_cells() {
    let cells = vec![
        vec![
            Symbol { kind: SymbolType::Dragon, locked: true },
            Symbol { kind: SymbolType::Dragon, locked: false },
        ],
        vec![
            Symbol { kind: SymbolType::Dragon, locked: false },
            Symbol { kind: SymbolType::Wild, locked: true },
        ],
    ];
    let mut board = SlotBoard::from_cells(cells).unwrap();
    let mut changed = false;
    for _ in 0..200 {
        board.spin();
        assert_eq!(board.get_dimensions(), (2, 2));
        assert_eq!(*board.cell(0, 0), Symbol { kind: SymbolType::Dragon, locked: true });
        assert_eq!(*board.cell(1, 1), Symbol { kind: SymbolType::Wild, locked: true });
        assert!(!board.cell(0, 1).locked);
        assert!(!board.cell(1, 0).locked);
        if board.cell(0, 1).kind != SymbolType::Dragon || board.cell(1, 0).kind != SymbolType::Dragon {
            changed = true;
        }
    }
    assert!(changed);
}

#[test]
fn rand_symbol_leaves_the_board() {
    let cells = vec![vec![Symbol { kind: SymbolType::King, locked: false }]];
    let mut board = SlotBoard::from_cells(cells).unwrap();
    for _ in 0..50 {
        board.rand_symbol();
    }
    assert_eq!(*board.cell(0, 0), Symbol { kind: SymbolType::King, locked: false });
}

#[test]
fn from_kinds_shows_the_kinds_unlocked() {
    let kinds = vec![
        vec![SymbolType::Nine, SymbolType::Ten],
        vec![SymbolType::Wild, SymbolType::Cake],
        vec![SymbolType::Ace, SymbolType::Dragon],
    ];
    let board = SlotBoard::from_kinds(Sampler::new(), 2, &kinds);
    assert_eq!(board.get_dimensions(), (3, 2));
    for x in 0..3 {
        for y in 0..2 {
            assert_eq!(*board.cell(x, y), Symbol { kind: kinds[x][y], locked: false });
        }
    }
    let empty = SlotBoard::from_kinds(Sampler::new(), 4, &vec![]);
    assert_eq!(empty.get_dimensions(), (0, 4));
}

#[test]
fn refresh_with_fills_free_cells_in_row_order() {
    let cells = vec![
        vec![
            Symbol { kind: SymbolType::Nine, locked: false },
            Symbol { kind: SymbolType::Ten, locked: true },
            Symbol { kind: SymbolType::Jack, locked: false },
        ],
        vec![
            Symbol { kind: SymbolType::Queen, locked: true },
            Symbol { kind: SymbolType::King, locked: true },
            Symbol { kind: SymbolType::Ace, locked: true },
        ],
        vec![
            Symbol { kind: SymbolType::Coffee, locked: false },
            Symbol { kind: SymbolType::Cake, locked: false },
            Symbol { kind: SymbolType::Viking, locked: false },
        ],
    ];
    let mut board = SlotBoard::from_cells(cells).unwrap();
    let kinds = vec![
        vec![SymbolType::Dragon, SymbolType::Wild],
        vec![],
        vec![SymbolType::Nine, SymbolType::Nine, SymbolType::Ten],
    ];
    board.refresh_with(&kinds);
    assert_eq!(board.get_dimensions(), (3, 3));
    let expected = [
        [
            Symbol { kind: SymbolType::Dragon, locked: false },
            Symbol { kind: SymbolType::Ten, locked: true },
            Symbol { kind: SymbolType::Wild, locked: false },
        ],
        [
            Symbol { kind: SymbolType::Queen, locked: true },
            Symbol { kind: SymbolType::King, locked: true },
            Symbol { kind: SymbolType::Ace, locked: true },
        ],
        [
            Symbol { kind: SymbolType::Nine, locked: false },
            Symbol { kind: SymbolType::Nine, locked: false },
            Symbol { kind: SymbolType::Ten, locked: false },
        ],
    ];
    for x in 0..3 {
        for y in 0..3 {
            assert_eq!(*board.cell(x, y), expected[x][y]);
        }
    }
}

#[test]
fn refresh_with_on_a_held_board_changes_nothing() {
    let cells = vec![vec![
        Symbol { kind: SymbolType::Wild, locked: true },
        Symbol { kind: SymbolType::Nine, locked: true },
    ]];
    let mut board = SlotBoard::from_cells(cells.clone()).unwrap();
    board.refresh_with(&vec![vec![]]);
    assert_eq!(*board.cell(0, 0), cells[0][0]);
    assert_eq!(*board.cell(0, 1), cells[0][1]);
}
