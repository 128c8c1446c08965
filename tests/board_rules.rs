use async_chess_client::board::{Board, CanMovePiece, PrecheckFailed};
use async_chess_client::board_container::{BoardContainer, BoardMoveError};
use async_chess_client::chess_piece::{ChessPiece, ChessPieceKind, ChessPieceKindParseError};
use async_chess_client::coords::{Coords, CoordsError};
use async_chess_client::server_interface::{no_connection_list, JSONMove, JSONPiece, JSONPieceList, ListError};

fn piece(x: i32, y: i32, kind: &str, is_white: bool) -> JSONPiece {
    JSONPiece { x, y, kind: kind.to_string(), is_white }
}

fn board_of(pieces: Vec<JSONPiece>) -> Board<CanMovePiece> {
    Board::new_json(JSONPieceList(pieces)).expect("valid list")
}

fn sample_board() -> Board<CanMovePiece> {
    board_of(vec![
        piece(3, 6, "pawn", true),
        piece(4, 4, "knight", false),
        piece(1, 1, "rook", false),
        piece(-1, -1, "bishop", true),
    ])
}

fn white(kind: ChessPieceKind) -> ChessPiece {
    ChessPiece { is_white: true, kind }
}

fn black(kind: ChessPieceKind) -> ChessPiece {
    ChessPiece { is_white: false, kind }
}

#[test]
fn white_pawn_promotes_and_commit_keeps_queen() {
    let b = board_of(vec![piece(3, 6, "pawn", true)]);
    let moved = b.make_move(JSONMove::new(7, 3, 6, 3, 0)).ok().expect("move starts");
    let done = moved.move_worked(false);
    assert_eq!(done.piece_at(Coords::OnBoard(3, 0)), Some(white(ChessPieceKind::Queen)));
    assert_eq!(done.piece_at(Coords::OnBoard(3, 6)), None);
    assert!(done.get_taken().is_empty());
}

#[test]
fn undo_after_move_restores_board() {
    let before = sample_board();
    let snapshot = before.clone();
    let moved = before.make_move(JSONMove::new(1, 1, 1, 4, 4)).ok().expect("move starts");
    assert_eq!(moved.piece_at(Coords::OnBoard(4, 4)), Some(black(ChessPieceKind::Rook)));
    assert_eq!(moved.piece_at(Coords::OnBoard(1, 1)), None);
    let back = moved.undo_move();
    assert_eq!(back, snapshot);
}

#[test]
fn commit_with_capture_appends_taken_piece() {
    let b = sample_board();
    let taken_before = b.get_taken();
    let moved = b.make_move(JSONMove::new(1, 1, 1, 4, 4)).ok().expect("move starts");
    assert_eq!(moved.pending_capture(), Some(black(ChessPieceKind::Knight)));
    let done = moved.move_worked(true);
    assert_eq!(done.piece_at(Coords::OnBoard(4, 4)), Some(black(ChessPieceKind::Rook)));
    assert!(!done.piece_exists_at_location(Coords::OnBoard(1, 1)));
    let mut expected = taken_before;
    expected.push(black(ChessPieceKind::Knight));
    assert_eq!(done.get_taken(), expected);
    assert_eq!(done.get_taken().len(), 2);
}

#[test]
fn second_move_while_pending_is_refused() {
    let mut c: BoardContainer = BoardContainer::Left(sample_board());
    assert_eq!(c.apply_optimistic_move(JSONMove::new(1, 3, 6, 3, 5)), Ok(()));
    assert!(c.is_awaiting_confirmation());
    let before = c.clone();
    assert_eq!(
        c.apply_optimistic_move(JSONMove::new(1, 1, 1, 1, 2)),
        Err(BoardMoveError::MovePending)
    );
    assert_eq!(c, before);
}

#[test]
fn promotion_preview_is_undone_to_pawn() {
    let b = board_of(vec![piece(2, 1, "pawn", false)]);
    let moved = b.make_move(JSONMove::new(1, 2, 1, 2, 7)).ok().expect("move starts");
    assert_eq!(moved.piece_at(Coords::OnBoard(2, 7)), Some(black(ChessPieceKind::Queen)));
    let back = moved.undo_move();
    assert_eq!(back.piece_at(Coords::OnBoard(2, 1)), Some(black(ChessPieceKind::Pawn)));
    assert_eq!(back.piece_at(Coords::OnBoard(2, 7)), None);
}

#[test]
fn pawn_short_of_last_rank_stays_pawn() {
    let b = board_of(vec![piece(2, 1, "pawn", true)]);
    let moved = b.make_move(JSONMove::new(1, 2, 1, 2, 7)).ok().expect("move starts");
    assert_eq!(moved.piece_at(Coords::OnBoard(2, 7)), Some(white(ChessPieceKind::Pawn)));
}

#[test]
fn move_without_piece_fails_precheck() {
    let b = sample_board();
    let snapshot = b.clone();
    match b.make_move(JSONMove::new(1, 0, 0, 0, 1)) {
        Err((back, e)) => {
            assert_eq!(e, PrecheckFailed::NoPieceAtStart);
            assert_eq!(back, snapshot);
        }
        Ok(_) => panic!("move without a piece started"),
    }
}

#[test]
fn move_off_board_fails_precheck() {
    let b = sample_board();
    match b.make_move(JSONMove::new(1, 3, 6, 8, 0)) {
        Err((_, e)) => assert_eq!(e, PrecheckFailed::OutOfRange),
        Ok(_) => panic!("move off the board started"),
    }
}

#[test]
fn list_names_are_trimmed_and_case_folded() {
    let b = board_of(vec![piece(0, 0, "  RoOk \n", true), piece(-1, -1, "QUEEN", false)]);
    assert_eq!(b.piece_at(Coords::OnBoard(0, 0)), Some(white(ChessPieceKind::Rook)));
    assert_eq!(b.get_taken(), vec![black(ChessPieceKind::Queen)]);
}

#[test]
fn list_with_unknown_kind_is_rejected() {
    let r = Board::new_json(JSONPieceList(vec![piece(0, 0, " Dragon ", true)]));
    assert_eq!(
        r.err(),
        Some(ListError::UnknownKind(ChessPieceKindParseError::FailedMatch("dragon".to_string())))
    );
}

#[test]
fn list_with_bad_coords_is_rejected() {
    let r = Board::new_json(JSONPieceList(vec![piece(9, 0, "rook", true)]));
    assert_eq!(r.err(), Some(ListError::BadCoords(CoordsError::XTooLarge)));
    let r = Board::new_json(JSONPieceList(vec![piece(-1, 3, "rook", true)]));
    assert_eq!(r.err(), Some(ListError::BadCoords(CoordsError::XNegative)));
}

#[test]
fn list_with_collision_is_rejected() {
    let r = Board::new_json(JSONPieceList(vec![piece(2, 3, "rook", true), piece(2, 3, "king", false)]));
    assert_eq!(r.err(), Some(ListError::Collision(2, 3)));
}

#[test]
fn empty_list_gives_empty_board() {
    let b = board_of(vec![]);
    assert_eq!(b, Board::new());
    assert!(!b.piece_exists_at_location(Coords::OnBoard(0, 0)));
}

#[test]
fn off_board_queries_give_nothing() {
    let b = sample_board();
    assert_eq!(b.piece_at(Coords::OffBoard), None);
    assert!(!b.piece_exists_at_location(Coords::OffBoard));
    assert!(!b.piece_exists_at_location(Coords::OnBoard(9, 0)));
}

#[test]
fn placeholder_board_spells_rooks() {
    let b = no_connection_list();
    assert_eq!(b.piece_at(Coords::OnBoard(0, 0)), Some(black(ChessPieceKind::Rook)));
    assert_eq!(b.piece_at(Coords::OnBoard(5, 0)), Some(white(ChessPieceKind::Rook)));
    assert_eq!(b.piece_at(Coords::OnBoard(6, 1)), Some(white(ChessPieceKind::Rook)));
    assert_eq!(b.piece_at(Coords::OnBoard(1, 0)), None);
    assert_eq!(b.piece_at(Coords::OnBoard(3, 3)), None);
    let mut count = 0;
    for y in 0..8u8 {
        for x in 0..8u8 {
            if b.piece_exists_at_location(Coords::OnBoard(x, y)) {
                count += 1;
            }
        }
    }
    assert_eq!(count, 29);
    let taken = b.get_taken();
    assert_eq!(taken.len(), 24);
    assert_eq!(taken[0..12].to_vec(), ChessPiece::all_variants());
    assert_eq!(taken[12..24].to_vec(), ChessPiece::all_variants());
}

#[test]
fn all_variants_lists_each_kind_black_then_white() {
    let v = ChessPiece::all_variants();
    assert_eq!(v.len(), 12);
    assert_eq!(v[0], black(ChessPieceKind::Bishop));
    assert_eq!(v[1], white(ChessPieceKind::Bishop));
    assert_eq!(v[11], white(ChessPieceKind::Rook));
}

#[test]
fn file_names_follow_colour_and_kind() {
    assert_eq!(white(ChessPieceKind::Queen).to_file_name(), "white_queen.png");
    assert_eq!(black(ChessPieceKind::Knight).to_file_name(), "black_knight.png");
}

#[test]
fn pieces_order_black_first_then_by_kind() {
    let mut v = vec![white(ChessPieceKind::Pawn), black(ChessPieceKind::King), black(ChessPieceKind::Pawn)];
    v.sort();
    assert_eq!(v, vec![black(ChessPieceKind::Pawn), black(ChessPieceKind::King), white(ChessPieceKind::Pawn)]);
}

#[test]
fn kind_names_parse_after_normalising() {
    assert_eq!(ChessPieceKind::try_from_name(" Knight"), Ok(ChessPieceKind::Knight));
    assert_eq!(ChessPieceKind::from_normalized("king".to_string()), Ok(ChessPieceKind::King));
    assert_eq!(
        ChessPieceKind::from_normalized("King".to_string()),
        Err(ChessPieceKindParseError::FailedMatch("King".to_string()))
    );
}

#[test]
fn coords_read_signed_pairs() {
    assert_eq!(Coords::try_from_signed(-1, -1), Ok(Coords::OffBoard));
    assert_eq!(Coords::try_from_signed(3, 7), Ok(Coords::OnBoard(3, 7)));
    assert_eq!(Coords::try_from_signed(-2, 0), Err(CoordsError::XNegative));
    assert_eq!(Coords::try_from_signed(8, 0), Err(CoordsError::XTooLarge));
    assert_eq!(Coords::try_from_signed(0, -1), Err(CoordsError::YNegative));
    assert_eq!(Coords::try_from_signed(0, 8), Err(CoordsError::YTooLarge));
}

#[test]
fn coords_read_unsigned_pairs() {
    assert_eq!(Coords::try_from_unsigned(7, 0), Ok(Coords::OnBoard(7, 0)));
    assert_eq!(Coords::try_from_unsigned(8, 0), Err(CoordsError::XTooLarge));
    assert_eq!(Coords::try_from_unsigned(0, 12), Err(CoordsError::YTooLarge));
}

#[test]
fn coords_queries() {
    let c = Coords::OnBoard(3, 2);
    assert_eq!(c.to_usize(), Some(19));
    assert_eq!(c.x(), Some(3));
    assert_eq!(c.y(), Some(2));
    assert_eq!(c.to_option(), Some((3, 2)));
    assert!(c.is_on_board());
    assert!(!c.is_taken());
    let off = Coords::default();
    assert_eq!(off, Coords::OffBoard);
    assert_eq!(off.to_usize(), None);
    assert_eq!(off.x(), None);
    assert!(off.is_taken());
}

#[test]
fn move_coords() {
    let m = JSONMove::new(5, 1, 2, 3, 4);
    assert_eq!(m.current_coords(), Coords::OnBoard(1, 2));
    assert_eq!(m.new_coords(), Coords::OnBoard(3, 4));
    assert_eq!(m.id, 5);
}

#[test]
fn container_reports_precheck_failure() {
    let mut c: BoardContainer = BoardContainer::Left(sample_board());
    let before = c.clone();
    assert_eq!(
        c.apply_optimistic_move(JSONMove::new(1, 6, 6, 6, 5)),
        Err(BoardMoveError::Precheck(PrecheckFailed::NoPieceAtStart))
    );
    assert_eq!(c, before);
}
