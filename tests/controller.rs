use async_chess_client::board::Board;
use async_chess_client::board_container::{BoardContainer, BoardMoveError};
use async_chess_client::chess_piece::{ChessPiece, ChessPieceKind};
use async_chess_client::config::{AsyncChessLauncher, PistonConfig};
use async_chess_client::coords::{Coords, CoordsError};
use async_chess_client::do_on_interval::{DoOnInterval, GiveUpdaters, UpdateOnCheck};
use async_chess_client::either::Either;
use async_chess_client::game::{GameController, GameError};
use async_chess_client::list_refresher::{
    classify_move_reply, BoardMessage, MessageToGame, MessageToWorker, MoveOutcome, MoveReply,
    WorkerAction, WorkerState,
};
use async_chess_client::memcache::MemoryTimedCacher;
use async_chess_client::server_interface::{no_connection_list, JSONMove, JSONPiece, JSONPieceList};

fn list() -> JSONPieceList {
    JSONPieceList(vec![
        JSONPiece { x: 4, y: 6, kind: "pawn".to_string(), is_white: true },
        JSONPiece { x: 4, y: 4, kind: "bishop".to_string(), is_white: false },
        JSONPiece { x: 0, y: 0, kind: "rook".to_string(), is_white: false },
    ])
}

fn controller_with_board() -> GameController {
    let mut g = GameController::new(9);
    assert_eq!(g.handle_message(MessageToGame::UpdateBoard(BoardMessage::NewList(list()))), Ok(()));
    g
}

fn board_msg(msg: BoardMessage) -> MessageToGame {
    MessageToGame::UpdateBoard(msg)
}

#[test]
fn invalid_move_snaps_back_to_snapshot() {
    let mut g = controller_with_board();
    let snapshot = g.board.clone();
    assert_eq!(g.mouse_input(4, 6), Ok(None));
    assert_eq!(g.last_pressed, Coords::OnBoard(4, 6));
    let cmd = g.mouse_input(4, 4);
    let m = JSONMove::new(9, 4, 6, 4, 4);
    assert_eq!(cmd, Ok(Some(MessageToWorker::MakeMove(m))));
    assert!(g.board.is_awaiting_confirmation());

    let mut w = WorkerState::new(500);
    assert_eq!(w.on_message(MessageToWorker::MakeMove(m), 0), WorkerAction::PostMove(m));
    let verdict = w.on_move_finished(MoveReply::Response { status: 412, body: None });
    assert_eq!(verdict, WorkerAction::Send(board_msg(BoardMessage::Move(MoveOutcome::Invalid))));
    match verdict {
        WorkerAction::Send(msg) => assert_eq!(g.handle_message(msg), Ok(())),
        _ => panic!("no verdict"),
    }
    assert_eq!(g.board, snapshot);
    assert_eq!(g.ex_last_pressed, Coords::OnBoard(4, 6));
}

#[test]
fn accepted_capture_moves_piece_to_taken() {
    let mut g = controller_with_board();
    g.mouse_input(4, 6).unwrap();
    g.mouse_input(4, 4).unwrap();
    let outcome = classify_move_reply(&MoveReply::Response { status: 200, body: Some("taken".to_string()) });
    assert_eq!(g.handle_message(board_msg(BoardMessage::Move(outcome))), Ok(()));
    assert!(!g.board.is_awaiting_confirmation());
    assert_eq!(g.board.piece_at(Coords::OnBoard(4, 4)), Some(ChessPiece { is_white: true, kind: ChessPieceKind::Pawn }));
    assert_eq!(g.board.get_taken(), vec![ChessPiece { is_white: false, kind: ChessPieceKind::Bishop }]);
}

#[test]
fn reported_capture_on_empty_square_is_flagged() {
    let mut g = controller_with_board();
    g.mouse_input(4, 6).unwrap();
    g.mouse_input(4, 5).unwrap();
    assert_eq!(
        g.handle_message(board_msg(BoardMessage::Move(MoveOutcome::Worked(true)))),
        Err(GameError::CaptureNotRecorded)
    );
    assert!(!g.board.is_awaiting_confirmation());
    assert!(g.board.get_taken().is_empty());
    assert!(g.board.piece_exists_at_location(Coords::OnBoard(4, 5)));
}

#[test]
fn press_on_empty_square_selects_nothing() {
    let mut g = controller_with_board();
    assert_eq!(g.mouse_input(3, 3), Ok(None));
    assert_eq!(g.last_pressed, Coords::OffBoard);
    assert_eq!(g.mouse_input(8, 3), Err(GameError::NotASquare(CoordsError::XTooLarge)));
}

#[test]
fn second_move_is_not_sent_while_pending() {
    let mut g = controller_with_board();
    g.mouse_input(4, 6).unwrap();
    g.mouse_input(4, 5).unwrap();
    g.mouse_input(0, 0).unwrap();
    assert_eq!(g.mouse_input(0, 1), Err(GameError::Move(BoardMoveError::MovePending)));
    assert_eq!(g.last_pressed, Coords::OffBoard);
}

#[test]
fn verdict_without_pending_move_is_an_error() {
    let mut g = controller_with_board();
    assert_eq!(
        g.handle_message(board_msg(BoardMessage::Move(MoveOutcome::Invalid))),
        Err(GameError::NoMovePending)
    );
}

#[test]
fn refresh_replaces_pending_board() {
    let mut g = controller_with_board();
    g.mouse_input(4, 6).unwrap();
    g.mouse_input(4, 5).unwrap();
    assert_eq!(g.handle_message(board_msg(BoardMessage::NoConnectionList)), Ok(()));
    assert_eq!(g.board, Either::Left(no_connection_list()));
    assert_eq!(g.handle_message(board_msg(BoardMessage::UseExisting)), Ok(()));
    assert_eq!(g.handle_message(MessageToGame::Stopped), Ok(()));
    assert_eq!(g.board, Either::Left(no_connection_list()));
}

#[test]
fn bad_list_keeps_board() {
    let mut g = controller_with_board();
    let before = g.board.clone();
    let bad = JSONPieceList(vec![JSONPiece { x: 0, y: 9, kind: "rook".to_string(), is_white: true }]);
    assert!(matches!(g.handle_message(board_msg(BoardMessage::NewList(bad))), Err(GameError::BadList(_))));
    assert_eq!(g.board, before);
}

#[test]
fn tmp_move_is_applied_once() {
    let mut g = controller_with_board();
    let m = JSONMove::new(9, 0, 0, 0, 3);
    assert_eq!(g.handle_message(board_msg(BoardMessage::TmpMove(m))), Ok(()));
    assert_eq!(
        g.handle_message(board_msg(BoardMessage::TmpMove(m))),
        Err(GameError::Move(BoardMoveError::MovePending))
    );
}

#[test]
fn commands_for_the_worker() {
    let mut g = controller_with_board();
    assert_eq!(GameController::refresh_command(true), MessageToWorker::UpdateNOW);
    assert_eq!(GameController::refresh_command(false), MessageToWorker::UpdateList);
    assert_eq!(g.restart_board(), MessageToWorker::RestartBoard);
    g.mouse_input(4, 6).unwrap();
    g.clear_mouse_input();
    assert_eq!(g.last_pressed, Coords::OffBoard);
    assert_eq!(g.exit(), MessageToWorker::InvalidateKill);
}

#[test]
fn new_controller_has_empty_board() {
    let g = GameController::new(3);
    let empty: BoardContainer = Either::Left(Board::new());
    assert_eq!(g.board, empty);
    assert_eq!(BoardContainer::default(), empty);
    assert_eq!(Either::<u8, u8>::l(4).one_type(), 4);
    assert_eq!(Either::<u8, u8>::r(5).one_type(), 5);
}

#[test]
fn check_mode_timer_allows_once_per_gap() {
    let mut t: DoOnInterval<UpdateOnCheck> = DoOnInterval::new(100);
    assert!(t.is_due(0));
    assert!(t.can_do(0));
    assert!(!t.can_do(100));
    assert!(t.can_do(101));
    t.update_timer(500);
    assert!(!t.can_do(550));
    assert!(t.can_do(601));
}

#[test]
fn updater_mode_timer_waits_for_finish() {
    let mut t: DoOnInterval<GiveUpdaters> = DoOnInterval::new(10);
    let u = t.get_updater(0).expect("first action is due");
    assert!(t.get_updater(50).is_none());
    let t = match t.to_update_on_check() {
        Either::Left(mut t) => {
            t.finish_update(u, 60);
            assert!(t.get_updater(65).is_none());
            assert!(t.get_updater(71).is_some());
            t
        }
        Either::Right(_) => panic!("switched mode with an updater outstanding"),
    };
    assert!(matches!(t.to_update_on_check(), Either::Left(_)));
}

#[test]
fn timer_switches_mode_when_free() {
    let mut t: DoOnInterval<UpdateOnCheck> = DoOnInterval::new(10);
    assert!(t.can_do(5));
    let g = t.to_give_updaters();
    match g.to_update_on_check() {
        Either::Right(mut c) => assert!(!c.can_do(10)),
        Either::Left(_) => panic!("no updater was outstanding"),
    }
}

#[test]
fn sample_store_overwrites_oldest() {
    let mut c: MemoryTimedCacher<u64, 3> = MemoryTimedCacher::new(None);
    assert!(c.is_empty());
    assert_eq!(c.average_u64(), 0);
    for (i, v) in [10u64, 20, 30, 40].iter().enumerate() {
        c.add(*v, i as u64);
    }
    assert_eq!(c.get_all(), vec![20, 30, 40]);
    assert_eq!(c.average_u64(), 30);
    c.add(50, 9);
    assert_eq!(c.get_all(), vec![30, 40, 50]);
}

#[test]
fn sample_store_with_timer_keeps_one_per_interval() {
    let mut c: MemoryTimedCacher<u64, 4> = MemoryTimedCacher::default();
    c.add(1, 0);
    c.add(2, 20);
    c.add(3, 51);
    assert_eq!(c.get_all(), vec![1, 3]);
    assert_eq!(c.average_u64(), 2);
}

#[test]
fn average_of_large_samples_does_not_overflow() {
    let mut c: MemoryTimedCacher<u64, 2> = MemoryTimedCacher::new(None);
    c.add(u64::MAX, 0);
    c.add(u64::MAX - 1, 1);
    assert_eq!(c.average_u64(), u64::MAX - 1);
}

#[test]
fn launcher_form_round_trip() {
    let f = AsyncChessLauncher::new(Some(PistonConfig { id: 42, res: 1080 }));
    assert_eq!(f.id, "42");
    assert_eq!(f.res, "1080");
    assert_eq!(f.to_config(), Some(PistonConfig { id: 42, res: 1080 }));
    let d = AsyncChessLauncher::new(None);
    assert_eq!(d.id, "0");
    assert_eq!(d.res, "600");
}

#[test]
fn launcher_form_clears_non_numbers() {
    let mut f = AsyncChessLauncher { id: "12a".to_string(), res: "+800".to_string() };
    assert_eq!(f.to_config(), None);
    f.clear_invalid();
    assert_eq!(f.id, "");
    assert_eq!(f.res, "+800");
    let f = AsyncChessLauncher { id: "4294967296".to_string(), res: "7".to_string() };
    assert_eq!(f.to_config(), None);
}
