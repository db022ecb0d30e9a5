use tic_tac_toe::contract::{execute, instantiate, query};
use tic_tac_toe::error::ContractError;
use tic_tac_toe::msg::{
    BoardStatusResponse, ExecuteMsg, GameStatusResponse, InstantiateMsg, OpenInvitesResponse,
    QueryMsg, QueryResponse,
};
use tic_tac_toe::state::{GameId, Player};
use tic_tac_toe::store::Store;

fn mock_init(store: &mut Store) {
    let msg = InstantiateMsg {};
    let res = instantiate(store, msg);
    assert!(res.attributes.is_empty());
}

fn assert_init_state(store: &Store, expected: OpenInvitesResponse) {
    let res = query(store, QueryMsg::OpenInvites {}).unwrap();
    assert_eq!(res, QueryResponse::OpenInvites(expected));
}

fn mock_invite(store: &mut Store, name: String) {
    let sender = name.clone();
    let msg = ExecuteMsg::Invite { name };
    let _res = execute(store, sender, msg).expect("contract successfully handles Invite message");
}

fn mock_accepted_invite(store: &mut Store, name: String, game_id: GameId) {
    let sender = name.clone();
    let msg = ExecuteMsg::Accepted { name, game_id };
    let _res = execute(store, sender, msg)
        .expect("contract successfully handles Accepted Invite message");
}

fn mock_play(store: &mut Store, name: String, position_x: u8, position_y: u8) {
    let msg = ExecuteMsg::Play { position_x, position_y };
    let _res = execute(store, name, msg).expect("contract successfully handles Play message");
}

fn assert_open_invites(store: &Store, invites: OpenInvitesResponse) {
    let res = query(store, QueryMsg::OpenInvites {}).unwrap();
    assert_eq!(QueryResponse::OpenInvites(invites), res);
}

fn assert_game_status(store: &Store, game_id: GameId, game_status: GameStatusResponse) {
    let res = query(store, QueryMsg::GameStatus { game_id }).unwrap();
    assert_eq!(QueryResponse::GameStatus(game_status), res);
}

fn assert_board_status(store: &Store, game_id: GameId, game_status: BoardStatusResponse) {
    let res = query(store, QueryMsg::BoardStatus { game_id }).unwrap();
    assert_eq!(QueryResponse::BoardStatus(game_status), res);
}

#[test]
fn proper_init() {
    let mut store = Store::new();
    mock_init(&mut store);
    assert_init_state(&store, OpenInvitesResponse { invites: vec![] });
}

#[test]
fn invite_with_name_and_query_works() {
    let mut store = Store::new();
    mock_init(&mut store);
    mock_invite(&mut store, "Alice".to_string());
    assert_open_invites(&store, OpenInvitesResponse { invites: vec![1] });
}

#[test]
fn accepted_invite_and_query_works() {
    let mut store = Store::new();
    mock_init(&mut store);
    mock_invite(&mut store, "Alice".to_string());
    assert_open_invites(&store, OpenInvitesResponse { invites: vec![1] });
    mock_accepted_invite(&mut store, "Bob".to_string(), 1);
    assert_game_status(
        &store,
        1,
        GameStatusResponse {
            game_id: 1,
            status: "Game in progress".to_string(),
            winner: "None".to_string(),
        },
    );
}

#[test]
fn fails_on_invite_accepted_by_same_inviter() {
    let mut store = Store::new();
    mock_init(&mut store);
    mock_invite(&mut store, "Alice".to_string());
    assert_open_invites(&store, OpenInvitesResponse { invites: vec![1] });
    let msg = ExecuteMsg::Accepted { name: "Alice".to_string(), game_id: 1 };
    let res = execute(&mut store, "Alice".to_string(), msg);
    match res {
        Ok(_) => panic!("Must return error"),
        Err(ContractError::YouCantPlayWithYourSelf {}) => {}
        Err(_) => panic!("Unknown error"),
    }
}

#[test]
fn fails_on_game_id_not_found_on_accepted_invite() {
    let mut store = Store::new();
    mock_init(&mut store);
    mock_invite(&mut store, "Alice Wonder".to_string());
    assert_open_invites(&store, OpenInvitesResponse { invites: vec![1] });
    let msg = ExecuteMsg::Accepted { name: "Bob".to_string(), game_id: 2 };
    let res = execute(&mut store, "Bob".to_string(), msg);
    match res {
        Ok(_) => panic!("Must return error"),
        Err(ContractError::GameIdNotFound { .. }) => {}
        Err(_) => panic!("Unknown error"),
    }
}

#[test]
fn invite_fails_with_invalid_name() {
    let mut store = Store::new();
    mock_init(&mut store);
    let sender = "Alice".to_string();
    // hi is too short
    let msg = ExecuteMsg::Invite { name: "hi".to_string() };
    match execute(&mut store, sender.clone(), msg) {
        Ok(_) => panic!("Must return error"),
        Err(ContractError::NameTooShort { .. }) => {}
        Err(_) => panic!("Unknown error"),
    }
    // 65 chars is too long
    let msg = ExecuteMsg::Invite {
        name: "01234567890123456789012345678901234567890123456789012345678901234".to_string(),
    };
    match execute(&mut store, sender.clone(), msg) {
        Ok(_) => panic!("Must return error"),
        Err(ContractError::NameTooLong { .. }) => {}
        Err(_) => panic!("Unknown error"),
    }
    // no special chars...
    let msg = ExecuteMsg::Invite { name: "*LOUD".to_string() };
    match execute(&mut store, sender.clone(), msg) {
        Ok(_) => panic!("Must return error"),
        Err(ContractError::InvalidCharacter { c }) => assert_eq!(c, '*'),
        Err(_) => panic!("Unknown error"),
    }
}

#[test]
fn accepted_invite_fails_with_invalid_name() {
    let mut store = Store::new();
    mock_init(&mut store);
    mock_invite(&mut store, "Alice".to_string());
    assert_open_invites(&store, OpenInvitesResponse { invites: vec![1] });
    let sender = "Alice".to_string();
    // hi is too short
    let msg = ExecuteMsg::Accepted { name: "hi".to_string(), game_id: 1 };
    match execute(&mut store, sender.clone(), msg) {
        Ok(_) => panic!("Must return error"),
        Err(ContractError::NameTooShort { .. }) => {}
        Err(_) => panic!("Unknown error"),
    }
    // 65 chars is too long
    let msg = ExecuteMsg::Accepted {
        name: "01234567890123456789012345678901234567890123456789012345678901234".to_string(),
        game_id: 1,
    };
    match execute(&mut store, sender.clone(), msg) {
        Ok(_) => panic!("Must return error"),
        Err(ContractError::NameTooLong { .. }) => {}
        Err(_) => panic!("Unknown error"),
    }
    // no special chars...
    let msg = ExecuteMsg::Accepted { name: "*LOUD".to_string(), game_id: 1 };
    match execute(&mut store, sender.clone(), msg) {
        Ok(_) => panic!("Must return error"),
        Err(ContractError::InvalidCharacter { c }) => assert_eq!(c, '*'),
        Err(_) => panic!("Unknown error"),
    }
}

#[test]
fn play_row_win_and_query_works() {
    let mut store = Store::new();
    mock_init(&mut store);
    mock_invite(&mut store, "Alice".to_string());
    assert_open_invites(&store, OpenInvitesResponse { invites: vec![1] });
    mock_accepted_invite(&mut store, "Bob".to_string(), 1);
    assert_game_status(
        &store,
        1,
        GameStatusResponse {
            game_id: 1,
            status: "Game in progress".to_string(),
            winner: "None".to_string(),
        },
    );
    mock_play(&mut store, "Alice".to_string(), 0, 0);
    mock_play(&mut store, "Bob".to_string(), 1, 2);
    mock_play(&mut store, "Alice".to_string(), 0, 1);
    mock_play(&mut store, "Bob".to_string(), 1, 0);
    mock_play(&mut store, "Alice".to_string(), 0, 2);
    assert_game_status(
        &store,
        1,
        GameStatusResponse {
            game_id: 1,
            status: "Game Over".to_string(),
            winner: "Alice".to_string(),
        },
    );
    assert_board_status(
        &store,
        1,
        BoardStatusResponse {
            board: vec![
                vec![Some(Player::X), Some(Player::X), Some(Player::X)],
                vec![Some(Player::O), None, Some(Player::O)],
                vec![None, None, None],
            ],
        },
    );
}

#[test]
fn play_col_win_and_query_works() {
    let mut store = Store::new();
    mock_init(&mut store);
    mock_invite(&mut store, "Alice".to_string());
    assert_open_invites(&store, OpenInvitesResponse { invites: vec![1] });
    mock_accepted_invite(&mut store, "Bob".to_string(), 1);
    assert_game_status(
        &store,
        1,
        GameStatusResponse {
            game_id: 1,
            status: "Game in progress".to_string(),
            winner: "None".to_string(),
        },
    );
    mock_play(&mut store, "Alice".to_string(), 0, 0);
    mock_play(&mut store, "Bob".to_string(), 0, 1);
    mock_play(&mut store, "Alice".to_string(), 1, 0);
    mock_play(&mut store, "Bob".to_string(), 0, 2);
    mock_play(&mut store, "Alice".to_string(), 2, 0);
    assert_game_status(
        &store,
        1,
        GameStatusResponse {
            game_id: 1,
            status: "Game Over".to_string(),
            winner: "Alice".to_string(),
        },
    );
}

#[test]
fn play_diagonal_win_and_query_works() {
    let mut store = Store::new();
    mock_init(&mut store);
    mock_invite(&mut store, "Alice".to_string());
    assert_open_invites(&store, OpenInvitesResponse { invites: vec![1] });
    mock_accepted_invite(&mut store, "Bob".to_string(), 1);
    assert_game_status(
        &store,
        1,
        GameStatusResponse {
            game_id: 1,
            status: "Game in progress".to_string(),
            winner: "None".to_string(),
        },
    );
    mock_play(&mut store, "Alice".to_string(), 0, 0);
    mock_play(&mut store, "Bob".to_string(), 0, 1);
    mock_play(&mut store, "Alice".to_string(), 1, 1);
    mock_play(&mut store, "Bob".to_string(), 0, 2);
    mock_play(&mut store, "Alice".to_string(), 2, 2);
    assert_game_status(
        &store,
        1,
        GameStatusResponse {
            game_id: 1,
            status: "Game Over".to_string(),
            winner: "Alice".to_string(),
        },
    );
}

#[test]
fn play_draw_and_query_works() {
    let mut store = Store::new();
    mock_init(&mut store);
    mock_invite(&mut store, "Alice".to_string());
    assert_open_invites(&store, OpenInvitesResponse { invites: vec![1] });
    mock_accepted_invite(&mut store, "Bob".to_string(), 1);
    assert_game_status(
        &store,
        1,
        GameStatusResponse {
            game_id: 1,
            status: "Game in progress".to_string(),
            winner: "None".to_string(),
        },
    );
    mock_play(&mut store, "Alice".to_string(), 2, 2);
    mock_play(&mut store, "Bob".to_string(), 1, 2);
    mock_play(&mut store, "Alice".to_string(), 0, 1);
    mock_play(&mut store, "Bob".to_string(), 2, 0);
    mock_play(&mut store, "Alice".to_string(), 0, 2);
    mock_play(&mut store, "Bob".to_string(), 2, 1);
    mock_play(&mut store, "Alice".to_string(), 1, 0);
    mock_play(&mut store, "Bob".to_string(), 0, 0);
    mock_play(&mut store, "Alice".to_string(), 1, 1);
    assert_game_status(
        &store,
        1,
        GameStatusResponse {
            game_id: 1,
            status: "Game Over".to_string(),
            winner: "Draw".to_string(),
        },
    );
}

#[test]
fn play_multiple_session_row_win_and_query_works() {
    let mut store = Store::new();
    mock_init(&mut store);
    mock_invite(&mut store, "Alice".to_string());
    assert_open_invites(&store, OpenInvitesResponse { invites: vec![1] });
    mock_invite(&mut store, "Dave".to_string());
    // Multiple open invites are available
    assert_open_invites(&store, OpenInvitesResponse { invites: vec![1, 2] });

    // Game ids are removed from open invites after invite is accepted by player
    mock_accepted_invite(&mut store, "Bob".to_string(), 1);
    assert_game_status(
        &store,
        1,
        GameStatusResponse {
            game_id: 1,
            status: "Game in progress".to_string(),
            winner: "None".to_string(),
        },
    );
    assert_open_invites(&store, OpenInvitesResponse { invites: vec![2] });
    mock_accepted_invite(&mut store, "Josh".to_string(), 2);
    assert_game_status(
        &store,
        2,
        GameStatusResponse {
            game_id: 2,
            status: "Game in progress".to_string(),
            winner: "None".to_string(),
        },
    );
    mock_play(&mut store, "Alice".to_string(), 0, 0);
    mock_play(&mut store, "Bob".to_string(), 1, 2);
    mock_play(&mut store, "Alice".to_string(), 0, 1);
    mock_play(&mut store, "Bob".to_string(), 1, 0);
    mock_play(&mut store, "Alice".to_string(), 0, 2);
    assert_game_status(
        &store,
        1,
        GameStatusResponse {
            game_id: 1,
            status: "Game Over".to_string(),
            winner: "Alice".to_string(),
        },
    );
    mock_play(&mut store, "Josh".to_string(), 0, 0);
    mock_play(&mut store, "Dave".to_string(), 1, 2);
    mock_play(&mut store, "Josh".to_string(), 0, 1);
    mock_play(&mut store, "Dave".to_string(), 1, 0);
    mock_play(&mut store, "Josh".to_string(), 0, 2);
    assert_game_status(
        &store,
        2,
        GameStatusResponse {
            game_id: 2,
            status: "Game Over".to_string(),
            winner: "Josh".to_string(),
        },
    );
}
