use gambling_simulator::{default_paylines, resolve, PayLine, PayLineResult, SlotBoard, Symbol, SymbolType};

use gambling_simulator::SymbolType::{Cake, Jack, King, Nine, Queen, Ten, Wild};

fn board_of(columns: [[SymbolType; 3]; 3]) -> SlotBoard {
    let cells: Vec<Vec<Symbol>> = columns
        .iter()
        .map(|column| column.iter().map(|kind| Symbol { kind: *kind, locked: false }).collect())
        .collect();
    SlotBoard::from_cells(cells).unwrap()
}

#[test]
fn nine_wild_nine_pays_as_nine() {
    assert_eq!(resolve(&vec![Nine, Wild, Nine]), Some(Nine));
}

#[test]
fn nine_ten_nine_does_not_pay() {
    assert_eq!(resolve(&vec![Nine, Ten, Nine]), None);
}

#[test]
fn all_wild_pays_as_wild() {
    assert_eq!(resolve(&vec![Wild, Wild, Wild]), Some(Wild));
}

#[test]
fn wild_ten_nine_does_not_pay() {
    assert_eq!(resolve(&vec![Wild, Ten, Nine]), None);
}

#[test]
fn leading_wilds_take_the_first_fixed_kind() {
    assert_eq!(resolve(&vec![Wild, Wild, King]), Some(King));
    assert_eq!(resolve(&vec![Wild, Queen, Wild]), Some(Queen));
    assert_eq!(resolve(&vec![Jack, Jack, Jack]), Some(Jack));
    assert_eq!(resolve(&vec![Jack, Jack, Nine]), None);
}

#[test]
fn single_symbol_line_pays_with_no_segments() {
    assert_eq!(resolve(&vec![Cake]), Some(Cake));
    let line = PayLine { slots: vec![(1, 1)] };
    assert!(line.to_lines().is_empty());
    let board = board_of([[Nine, Ten, Jack], [Nine, Cake, Jack], [Nine, Ten, Jack]]);
    match line.check(&board) {
        PayLineResult::Success(kind, segments) => {
            assert_eq!(kind, Cake);
            assert!(segments.is_empty());
        }
        PayLineResult::Fail => panic!("a single cell always pays"),
    }
}

#[test]
fn to_lines_joins_neighbours() {
    let line = PayLine { slots: vec![(0, 2), (1, 1), (2, 0)] };
    assert_eq!(line.to_lines(), vec![((0, 2), (1, 1)), ((1, 1), (2, 0))]);
    let empty = PayLine { slots: vec![] };
    assert!(empty.to_lines().is_empty());
}

#[test]
fn get_symbols_reads_column_then_row() {
    let board = board_of([[Nine, Ten, Jack], [Queen, King, Cake], [Wild, Nine, Ten]]);
    let line = PayLine { slots: vec![(0, 1), (1, 2), (2, 0)] };
    assert_eq!(line.get_symbols(&board), vec![Ten, Cake, Wild]);
}

#[test]
fn check_gives_kind_and_segments() {
    let board = board_of([[Nine, Ten, Jack], [Wild, King, Cake], [Nine, Nine, Ten]]);
    let top_row = PayLine { slots: vec![(0, 0), (1, 0), (2, 0)] };
    match top_row.check(&board) {
        PayLineResult::Success(kind, segments) => {
            assert_eq!(kind, Nine);
            assert_eq!(segments, vec![((0, 0), (1, 0)), ((1, 0), (2, 0))]);
        }
        PayLineResult::Fail => panic!("nine, wild, nine pays"),
    }
    let middle_row = PayLine { slots: vec![(0, 1), (1, 1), (2, 1)] };
    assert!(matches!(middle_row.check(&board), PayLineResult::Fail));
}

#[test]
fn default_set_has_eight_lines() {
    let lines: Vec<Vec<(usize, usize)>> = default_paylines().into_iter().map(|l| l.slots).collect();
    assert_eq!(
        lines,
        vec![
            vec![(0, 0), (0, 1), (0, 2)],
            vec![(1, 0), (1, 1), (1, 2)],
            vec![(2, 0), (2, 1), (2, 2)],
            vec![(0, 0), (1, 0), (2, 0)],
            vec![(0, 1), (1, 1), (2, 1)],
            vec![(0, 2), (1, 2), (2, 2)],
            vec![(0, 0), (1, 1), (2, 2)],
            vec![(0, 2), (1, 1), (2, 0)],
        ]
    );
}
