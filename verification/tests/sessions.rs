use tic_tac_toe::contract::{
    can_submit_move, check_session, move_response, open_session, status_response,
    status_winner_name, submit_move, winner_name,
};
use tic_tac_toe::error::ContractError;
use tic_tac_toe::msg::GameStatusResponse;
use tic_tac_toe::state::{Game, GameInvite, GameSession, Player, PlayerDetails};

use cosmwasm_std::{Attribute, Response};

fn details(addr: &str, role: Option<Player>) -> PlayerDetails {
    PlayerDetails { addr: addr.to_string(), name: addr.to_string(), player: role }
}

/// Alice invited, Bob accepted; Alice moves first and marks with X.
fn fresh_session() -> GameSession {
    let mut invite = GameInvite {
        invite_player: details("Alice", None),
        accepted_player: Some(details("Bob", None)),
        accepted: true,
    };
    open_session(&mut invite)
}

fn play(session: GameSession, who: &str, x: u8, y: u8) -> GameSession {
    submit_move(Some(session), &who.to_string(), 1, x, y).expect("the move is accepted")
}

fn row_win() -> GameSession {
    let mut session = fresh_session();
    for (who, x, y) in [("Alice", 0, 0), ("Bob", 1, 2), ("Alice", 0, 1), ("Bob", 1, 0)] {
        session = play(session, who, x, y);
        assert!(!session.game_over);
        assert_eq!(session.winner, None);
    }
    play(session, "Alice", 0, 2)
}

fn draw() -> GameSession {
    let mut session = fresh_session();
    for (who, x, y) in [
        ("Alice", 2, 2),
        ("Bob", 1, 2),
        ("Alice", 0, 1),
        ("Bob", 2, 0),
        ("Alice", 0, 2),
        ("Bob", 2, 1),
        ("Alice", 1, 0),
        ("Bob", 0, 0),
    ] {
        session = play(session, who, x, y);
        assert!(!session.game_over);
    }
    play(session, "Alice", 1, 1)
}

#[test]
fn row_win_scenario_ends_with_x_on_the_top_row() {
    let session = row_win();
    assert_eq!(session.game.board[0], vec![Some(Player::X), Some(Player::X), Some(Player::X)]);
    assert_eq!(session.game.board[1], vec![Some(Player::O), None, Some(Player::O)]);
    assert_eq!(session.game.board[2], vec![None, None, None]);
    assert!(session.game_over);
    assert_eq!(session.winner, Some(details("Alice", Some(Player::X))));
    assert!(check_session(&session));
}

#[test]
fn draw_scenario_fills_the_board_without_a_line() {
    let session = draw();
    assert_eq!(
        session.game.board,
        vec![
            vec![Some(Player::O), Some(Player::X), Some(Player::X)],
            vec![Some(Player::X), Some(Player::X), Some(Player::O)],
            vec![Some(Player::O), Some(Player::O), Some(Player::X)],
        ]
    );
    assert!(session.game_over);
    assert_eq!(session.winner, None);
    assert_eq!(session.game.get_winner(), None);
    assert!(check_session(&session));
}

#[test]
fn a_move_marks_the_cell_and_passes_the_turn() {
    let session = play(fresh_session(), "Alice", 1, 1);
    assert_eq!(session.game.board[1][1], Some(Player::X));
    assert_eq!(session.game.current_player, details("Bob", Some(Player::O)));
    let session = play(session, "Bob", 0, 2);
    assert_eq!(session.game.board[0][2], Some(Player::O));
    assert_eq!(session.game.current_player, details("Alice", Some(Player::X)));
    assert!(check_session(&session));
}

#[test]
fn the_turn_passes_on_even_with_the_last_move() {
    let session = row_win();
    assert_eq!(session.game.current_player, details("Bob", Some(Player::O)));
}

#[test]
fn a_move_without_session_is_refused() {
    assert_eq!(
        submit_move(None, &"Alice".to_string(), 7, 0, 0),
        Err(ContractError::GameIdNotFound { game_id: 7 })
    );
}

#[test]
fn two_moves_in_a_row_are_refused() {
    let session = play(fresh_session(), "Alice", 0, 0);
    assert_eq!(
        submit_move(Some(session.clone()), &"Alice".to_string(), 3, 1, 1),
        Err(ContractError::ItsNotYourTurn { game_id: 3 })
    );
    // not even on the cell just taken, nor outside the grid
    assert_eq!(
        submit_move(Some(session.clone()), &"Alice".to_string(), 3, 0, 0),
        Err(ContractError::ItsNotYourTurn { game_id: 3 })
    );
    assert_eq!(
        submit_move(Some(session), &"Alice".to_string(), 3, 9, 9),
        Err(ContractError::ItsNotYourTurn { game_id: 3 })
    );
}

#[test]
fn the_second_player_may_not_start() {
    assert_eq!(
        submit_move(Some(fresh_session()), &"Bob".to_string(), 1, 0, 0),
        Err(ContractError::ItsNotYourTurn { game_id: 1 })
    );
}

#[test]
fn a_stranger_may_not_move() {
    assert_eq!(
        submit_move(Some(fresh_session()), &"Carol".to_string(), 1, 0, 0),
        Err(ContractError::ItsNotYourTurn { game_id: 1 })
    );
}

#[test]
fn occupied_and_outside_cells_are_refused() {
    let session = play(fresh_session(), "Alice", 0, 0);
    for (x, y) in [(0, 0), (3, 0), (0, 3), (3, 3), (255, 1)] {
        assert_eq!(
            submit_move(Some(session.clone()), &"Bob".to_string(), 5, x, y),
            Err(ContractError::InvalidMove { game_id: 5 })
        );
    }
    // the refusal cost Bob nothing: he can still move
    let session = play(session, "Bob", 2, 2);
    assert_eq!(session.game.board[2][2], Some(Player::O));
}

#[test]
fn moves_after_a_win_are_refused_with_the_winner() {
    let session = row_win();
    for (who, x, y) in [("Bob", 2, 2), ("Alice", 2, 2), ("Carol", 0, 0), ("Bob", 9, 9)] {
        assert_eq!(
            submit_move(Some(session.clone()), &who.to_string(), 1, x, y),
            Err(ContractError::GameOver {
                game_id: 1,
                status: "Game Over".to_string(),
                winner: "Alice".to_string(),
            })
        );
    }
}

#[test]
fn moves_after_a_draw_are_refused_as_a_draw() {
    let session = draw();
    assert_eq!(
        submit_move(Some(session), &"Bob".to_string(), 2, 0, 0),
        Err(ContractError::GameOver {
            game_id: 2,
            status: "Game Over".to_string(),
            winner: "None, Draw".to_string(),
        })
    );
}

#[test]
fn a_session_on_an_open_invite_is_refused() {
    let session = GameSession {
        game: Game::new(details("Alice", Some(Player::X))),
        players: GameInvite {
            invite_player: details("Alice", None),
            accepted_player: None,
            accepted: false,
        },
        winner: None,
        game_over: false,
    };
    assert!(!check_session(&session));
    assert_eq!(
        submit_move(Some(session), &"Alice".to_string(), 6, 0, 0),
        Err(ContractError::InviteNotAcceptedYet { game_id: 6 })
    );
}

#[test]
fn a_move_can_be_submitted_where_it_is_refused_early_or_the_session_is_fit() {
    let alice = "Alice".to_string();
    let bob = "Bob".to_string();
    assert!(can_submit_move(&None, &alice));
    assert!(can_submit_move(&Some(fresh_session()), &alice));
    assert!(can_submit_move(&Some(fresh_session()), &bob));
    assert!(can_submit_move(&Some(row_win()), &bob));

    // a short board: no move for the player to move, a refusal for the other
    let mut odd = fresh_session();
    odd.game.board[2].pop();
    assert!(!can_submit_move(&Some(odd.clone()), &alice));
    assert!(can_submit_move(&Some(odd.clone()), &bob));
    assert_eq!(
        submit_move(Some(odd.clone()), &bob, 1, 0, 0),
        Err(ContractError::ItsNotYourTurn { game_id: 1 })
    );
    // over, or never accepted: refused before the board is looked at
    let mut over = odd.clone();
    over.game_over = true;
    assert!(can_submit_move(&Some(over), &alice));
    let mut open = odd;
    open.players.accepted = false;
    assert!(can_submit_move(&Some(open.clone()), &alice));
    assert_eq!(
        submit_move(Some(open), &alice, 1, 0, 0),
        Err(ContractError::InviteNotAcceptedYet { game_id: 1 })
    );

    let mut odd = fresh_session();
    odd.game.board.push(vec![None, None, None]);
    assert!(!can_submit_move(&Some(odd), &alice));
    let mut odd = fresh_session();
    odd.game.current_player.player = None;
    assert!(!can_submit_move(&Some(odd), &alice));
    let mut odd = fresh_session();
    odd.players.invite_player.player = None;
    assert!(!can_submit_move(&Some(odd), &alice));
    let mut odd = fresh_session();
    odd.players.accepted_player = None;
    assert!(!can_submit_move(&Some(odd), &alice));
}

#[test]
fn a_session_that_is_fit_but_not_well_formed_is_played_on() {
    // the two players carry the same role: not well formed, yet a move is taken
    let mut odd = fresh_session();
    odd.players.accepted_player.as_mut().unwrap().player = Some(Player::X);
    assert!(!check_session(&odd));
    assert!(can_submit_move(&Some(odd.clone()), &"Alice".to_string()));
    let played = play(odd, "Alice", 2, 0);
    assert_eq!(played.game.board[2][0], Some(Player::X));
    assert_eq!(played.game.current_player.addr, "Bob");
    assert!(!played.game_over);
}

#[test]
fn winning_move_reports_status_and_winner() {
    let res = move_response(&row_win());
    assert_eq!(
        res.attributes,
        vec![Attribute::new("status", "Game Over"), Attribute::new("winner", "Alice")]
    );
    assert!(res.messages.is_empty());
    assert!(res.events.is_empty());
    assert_eq!(res.data, None);
}

#[test]
fn drawing_move_reports_a_draw() {
    let res = move_response(&draw());
    assert_eq!(
        res.attributes,
        vec![Attribute::new("status", "Game Over"), Attribute::new("winner", "None, Draw")]
    );
}

#[test]
fn other_moves_report_nothing() {
    assert_eq!(move_response(&fresh_session()), Response::default());
    assert_eq!(move_response(&play(fresh_session(), "Alice", 1, 1)), Response::default());
}

#[test]
fn winner_is_named_or_a_draw() {
    assert_eq!(winner_name(&None), "None, Draw");
    let carol = PlayerDetails {
        addr: "addr".to_string(),
        name: "Carol".to_string(),
        player: Some(Player::O),
    };
    assert_eq!(winner_name(&Some(carol.clone())), "Carol");
    assert_eq!(status_winner_name(&None), "Draw");
    assert_eq!(status_winner_name(&Some(carol)), "Carol");
}

#[test]
fn status_tells_progress_end_and_absence() {
    assert_eq!(
        status_response(3, None),
        GameStatusResponse {
            game_id: 3,
            status: "Game not found".to_string(),
            winner: "None".to_string(),
        }
    );
    assert_eq!(
        status_response(3, Some(fresh_session())),
        GameStatusResponse {
            game_id: 3,
            status: "Game in progress".to_string(),
            winner: "None".to_string(),
        }
    );
    assert_eq!(
        status_response(3, Some(row_win())),
        GameStatusResponse {
            game_id: 3,
            status: "Game Over".to_string(),
            winner: "Alice".to_string(),
        }
    );
    assert_eq!(
        status_response(3, Some(draw())),
        GameStatusResponse {
            game_id: 3,
            status: "Game Over".to_string(),
            winner: "Draw".to_string(),
        }
    );
}

#[test]
fn sessions_are_checked_for_their_form() {
    let good = play(fresh_session(), "Alice", 0, 0);
    assert!(check_session(&fresh_session()));
    assert!(check_session(&good));

    let mut odd = good.clone();
    odd.game.board.pop();
    assert!(!check_session(&odd));
    let mut odd = good.clone();
    odd.game.board[1].push(None);
    assert!(!check_session(&odd));
    let mut odd = good.clone();
    odd.players.accepted = false;
    assert!(!check_session(&odd));
    let mut odd = good.clone();
    odd.players.invite_player.player = None;
    assert!(!check_session(&odd));
    let mut odd = good.clone();
    odd.game.current_player = details("Carol", Some(Player::X));
    assert!(!check_session(&odd));
    let mut odd = good.clone();
    odd.game_over = true;
    assert!(!check_session(&odd));
    let mut odd = good.clone();
    odd.winner = Some(details("Alice", Some(Player::X)));
    assert!(!check_session(&odd));
    // a finished game that is recorded as going on, or with the wrong winner
    let mut odd = row_win();
    odd.game_over = false;
    assert!(!check_session(&odd));
    let mut odd = row_win();
    odd.winner = Some(details("Bob", Some(Player::O)));
    assert!(!check_session(&odd));
    let mut odd = draw();
    odd.winner = Some(details("Alice", Some(Player::X)));
    assert!(!check_session(&odd));
    // a board on which both roles have filled a line
    let mut odd = row_win();
    odd.game.board[1][1] = Some(Player::O);
    assert_eq!(odd.game.get_winner(), Some(Player::X));
    assert!(!check_session(&odd));
}
