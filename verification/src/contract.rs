//! The rules of the contract: name validation, role assignment, and the
//! handlers of invites, acceptances and moves.

use crate::error::{ContractError, ContractErrorView};
use crate::model::{
    accept_step, accepted_invite, board_status_of, consistent, game_status_of, invite_step,
    invite_wf, lemma_accept_keeps_consistent, lemma_empty_store_consistent,
    lemma_invite_keeps_consistent, lemma_play_keeps_consistent, move_attributes, moved,
    opening_session, play_attributes, play_step, playable, reaches_board, session_wf, status_of,
    status_winner_text, winner_text,
};
use crate::msg::{
    BoardStatusResponse, ExecuteMsg, GameStatusResponse, InstantiateMsg, OpenInvitesResponse,
    QueryMsg, QueryResponse, QueryView,
};
use crate::response::{add_attribute, attributes_of, empty_response};
use crate::state::{
    same_player, same_role, view_of, Game, GameId, GameInvite, GameInviteView, GameSession,
    GameStatus, OpenInvites, Player, PlayerDetails, PlayerDetailsView, FIRST_PLAYER, GRID_SIZE,
};
use crate::store::{empty_store, Store, StoreView};
use cosmwasm_std::Response;
use std::collections::hash_map::DefaultHasher;
use std::hash::Hasher;
use vstd::prelude::*;
use vstd::std_specs::hash::DefaultHasherAdditionalSpecFns;
use vstd::string::StringExecFns;
use vstd::string::StrSliceExecFns;
use vstd::utf8::encode_utf8;

verus! {

/// The least number of bytes in a name.
pub const MIN_NAME_LENGTH: u64 = 3;

/// The greatest number of bytes in a name.
pub const MAX_NAME_LENGTH: u64 = 64;

/// The characters a name may hold: ASCII letters and digits, space, `.`, `-`
/// and `_`.
pub open spec fn allowed_char(c: char) -> bool {
    ||| '0' <= c <= '9'
    ||| 'a' <= c <= 'z'
    ||| 'A' <= c <= 'Z'
    ||| c == '.'
    ||| c == '-'
    ||| c == '_'
    ||| c == ' '
}

/// Position `i` holds a character that is not allowed, and no position
/// before it does.
pub open spec fn is_first_invalid(name: Seq<char>, i: int) -> bool {
    &&& 0 <= i < name.len()
    &&& !allowed_char(name[i])
    &&& forall|j: int| 0 <= j < i ==> allowed_char(#[trigger] name[j])
}

/// The first character of `name`, in reading order, that is not allowed.
pub open spec fn first_invalid(name: Seq<char>) -> Option<char> {
    if exists|i: int| is_first_invalid(name, i) {
        Some(name[choose|i: int| is_first_invalid(name, i)])
    } else {
        None
    }
}

/// The length of `name` in bytes of UTF-8.
pub open spec fn name_length(name: Seq<char>) -> nat {
    encode_utf8(name).len()
}

/// The verdict on a name: the length is judged first, then the characters.
pub open spec fn check_name(name: Seq<char>) -> Result<(), ContractErrorView> {
    if name_length(name) < MIN_NAME_LENGTH {
        Err(
            ContractErrorView::NameTooShort {
                length: name_length(name) as u64,
                min_length: MIN_NAME_LENGTH,
            },
        )
    } else if name_length(name) > MAX_NAME_LENGTH {
        Err(
            ContractErrorView::NameTooLong {
                length: name_length(name) as u64,
                max_length: MAX_NAME_LENGTH,
            },
        )
    } else {
        match first_invalid(name) {
            Some(c) => Err(ContractErrorView::InvalidCharacter { c }),
            None => Ok(()),
        }
    }
}

/// Check if the char in name is invalid (space is include for names with surname)
pub fn invalid_char(c: char) -> (r: bool)
    ensures
        r == !allowed_char(c),
{
    let is_valid = ('0' <= c && c <= '9') || ('a' <= c && c <= 'z') || ('A' <= c && c <= 'Z') || (c
        == '.' || c == '-' || c == '_' || c == ' ');
    !is_valid
}

/// validate_name returns an error if the name is invalid
/// (we require 3-64 lowercase or uppercase ascii letters, numbers, space or . - _)
pub fn validate_name(name: &str) -> (r: Result<(), ContractError>)
    ensures
        match r {
            Ok(()) => check_name(name@) == Ok::<(), ContractErrorView>(()),
            Err(e) => check_name(name@) == Err::<(), ContractErrorView>(e@),
        },
{
    let length = name.as_bytes().len() as u64;
    if length < MIN_NAME_LENGTH {
        Err(ContractError::NameTooShort { length, min_length: MIN_NAME_LENGTH })
    } else if length > MAX_NAME_LENGTH {
        Err(ContractError::NameTooLong { length, max_length: MAX_NAME_LENGTH })
    } else {
        for c in it: name.chars()
            invariant
                it.seq() == name@,
                MIN_NAME_LENGTH <= name_length(name@) <= MAX_NAME_LENGTH,
                forall|j: int| 0 <= j < it.index() ==> allowed_char(#[trigger] name@[j]),
        {
            if invalid_char(c) {
                assert(is_first_invalid(name@, it.index()));
                return Err(ContractError::InvalidCharacter { c });
            }
        }
        Ok(())
    }
}

/// The hash of a text: the digest of its bytes followed by the byte `0xff`.
pub open spec fn text_hash(t: Seq<char>) -> u64 {
    DefaultHasher::spec_finish(seq![encode_utf8(t).push(0xffu8)])
}

/// Calculate hash of a string
pub fn calculate_hash(t: String) -> (r: u64)
    ensures
        r == text_hash(t@),
{
    let mut bytes = t.as_str().as_bytes_vec();
    bytes.push(0xff);
    let mut s = DefaultHasher::new();
    s.write(bytes.as_slice());
    s.finish()
}

/// Check if first bit is zero
pub fn is_first_bit_zero(num: u64) -> (r: bool)
    ensures
        r == (num % 2 == 0),
{
    let res = num & (1 << 0);
    assert((num & (1u64 << 0u64) == 0) == (num % 2 == 0)) by (bit_vector);
    res == 0
}

/// Whether the inviter moves first: the lowest bit of the hash of the
/// inviter's address followed by the accepter's is set.
pub open spec fn inviter_moves_first(inviter: Seq<char>, accepter: Seq<char>) -> bool {
    text_hash(inviter + accepter) % 2 != 0
}

/// The player who moves first in a game between the two players of
/// `invite`, carrying the first role.
pub open spec fn first_player_of(invite: GameInviteView) -> PlayerDetailsView {
    let accepter = invite.accepted_player.unwrap();
    if inviter_moves_first(invite.invite_player.addr, accepter.addr) {
        PlayerDetailsView { player: Some(FIRST_PLAYER), ..invite.invite_player }
    } else {
        PlayerDetailsView { player: Some(FIRST_PLAYER), ..accepter }
    }
}

/// The invite with both roles filled in: the first role for the inviter if
/// the inviter moves first, else for the accepter.
pub open spec fn with_roles(invite: GameInviteView) -> GameInviteView {
    let accepter = invite.accepted_player.unwrap();
    if inviter_moves_first(invite.invite_player.addr, accepter.addr) {
        GameInviteView {
            invite_player: PlayerDetailsView { player: Some(Player::X), ..invite.invite_player },
            accepted_player: Some(PlayerDetailsView { player: Some(Player::O), ..accepter }),
            accepted: invite.accepted,
        }
    } else {
        GameInviteView {
            invite_player: PlayerDetailsView { player: Some(Player::O), ..invite.invite_player },
            accepted_player: Some(PlayerDetailsView { player: Some(Player::X), ..accepter }),
            accepted: invite.accepted,
        }
    }
}

/// Find the first player: The roles of "X" and "O" are decided as follows. The
/// addresses of the inviter and of the accepter are concatenated and the
/// result is hashed. If the first bit of the output is 0, then the game's
/// initiator (whoever posted the invitation) plays "O" and the second player
/// plays "X" and vice versa. "X" has the first move.
pub fn get_first_player(game_invite: &mut GameInvite) -> (first_player: PlayerDetails)
    requires
        old(game_invite)@.accepted_player is Some,
    ensures
        first_player@ == first_player_of(old(game_invite)@),
        final(game_invite)@ == with_roles(old(game_invite)@),
{
    let mut accepter = game_invite.accepted_player.as_ref().unwrap().clone();
    let keys = game_invite.invite_player.addr.clone().concat(accepter.addr.as_str());
    let hash = calculate_hash(keys);
    let first_player;
    if is_first_bit_zero(hash) {
        game_invite.invite_player.player = Some(FIRST_PLAYER.other());
        accepter.player = Some(FIRST_PLAYER);
        first_player = accepter.clone();
    } else {
        game_invite.invite_player.player = Some(FIRST_PLAYER);
        accepter.player = Some(FIRST_PLAYER.other());
        first_player = game_invite.invite_player.clone();
    }
    game_invite.accepted_player = Some(accepter);
    first_player
}

/// The id of the invite that follows the one numbered `game_id_inc`.
pub fn next_game_id(game_id_inc: GameId) -> (game_id: GameId)
    requires
        game_id_inc < u128::MAX,
    ensures
        game_id == game_id_inc + 1,
{
    game_id_inc + 1
}

/// The id of the caller's active session, from what is stored for the
/// caller's address.
pub fn active_session(stored: Option<GameId>) -> (r: Result<GameId, ContractError>)
    ensures
        match stored {
            Some(game_id) => r == Ok::<GameId, ContractError>(game_id),
            None => r matches Err(e) && e@ == ContractErrorView::YourSessionNotFound,
        },
{
    match stored {
        Some(game_id) => Ok(game_id),
        None => Err(ContractError::YourSessionNotFound {  }),
    }
}

/// Records `sender` as the accepter of a stored invite.
pub fn accept_invite(
    record: Option<GameInvite>,
    sender: String,
    name: String,
    game_id: GameId,
) -> (r: Result<GameInvite, ContractError>)
    ensures
        match accepted_invite(view_of(record), sender@, name@, game_id) {
            Ok(invite) => r matches Ok(i) && i@ == invite,
            Err(e) => r matches Err(err) && err@ == e,
        },
{
    match record {
        Some(mut record) => {
            if sender == record.invite_player.addr {
                return Err(ContractError::YouCantPlayWithYourSelf {  });
            }
            if record.accepted {
                return Err(ContractError::InviteAlreadyAccepted { game_id });
            }
            record.accepted_player = Some(PlayerDetails { addr: sender, name, player: None });
            record.accepted = true;
            Ok(record)
        },
        None => Err(ContractError::GameIdNotFound { game_id }),
    }
}

/// Assigns the roles of an accepted invite and opens the session on it.
pub fn open_session(invite: &mut GameInvite) -> (session: GameSession)
    requires
        old(invite)@.accepted_player is Some,
    ensures
        session@ == opening_session(old(invite)@),
        final(invite)@ == with_roles(old(invite)@),
{
    let first_player = get_first_player(invite);
    GameSession {
        game: Game::new(first_player),
        players: invite.clone(),
        winner: None,
        game_over: false,
    }
}

/// How a refused or a last move reports the winner of a finished game: by
/// name, or as a draw.
pub fn winner_name(winner: &Option<PlayerDetails>) -> (r: String)
    ensures
        r@ == winner_text(view_of(*winner)),
{
    match winner {
        Some(w) => w.name.clone(),
        None => String::from_str("None, Draw"),
    }
}

/// Whether a move of `sender` can be played on what is stored: either the
/// move is refused before it gets to the board, or the session has what a
/// move needs.
pub fn can_submit_move(record: &Option<GameSession>, sender: &String) -> (ok: bool)
    ensures
        ok == (view_of(*record) matches Some(session) ==> (reaches_board(session, sender@)
            ==> playable(session))),
{
    match record {
        Some(session) => {
            if session.game_over || *sender != session.game.current_player.addr
                || !session.players.accepted {
                return true;
            }
            let board = &session.game.board;
            board.len() == GRID_SIZE && board[0].len() == GRID_SIZE && board[1].len() == GRID_SIZE
                && board[2].len() == GRID_SIZE && session.game.current_player.player.is_some()
                && session.players.invite_player.player.is_some()
                && session.players.accepted_player.is_some()
        },
        None => true,
    }
}

/// Plays the move of `sender` at `(position_x, position_y)` on a stored
/// session. Where the move gets as far as the board, the session has to
/// hold what a move needs; a well-formed session stays well formed.
pub fn submit_move(
    record: Option<GameSession>,
    sender: &String,
    game_id: GameId,
    position_x: u8,
    position_y: u8,
) -> (r: Result<GameSession, ContractError>)
    requires
        view_of(record) matches Some(session) ==> (reaches_board(session, sender@) ==> playable(
            session,
        )),
    ensures
        match moved(view_of(record), sender@, game_id, position_x as int, position_y as int) {
            Ok(session) => r matches Ok(s) && s@ == session,
            Err(e) => r matches Err(err) && err@ == e,
        },
        r matches Ok(s) ==> (view_of(record) matches Some(before) ==> (session_wf(before)
            ==> session_wf(s@))),
{
    match record {
        Some(mut record) => {
            if record.game_over {
                let winner = winner_name(&record.winner);
                return Err(
                    ContractError::GameOver {
                        game_id,
                        status: String::from_str("Game Over"),
                        winner,
                    },
                );
            } else if *sender != record.game.current_player.addr {
                return Err(ContractError::ItsNotYourTurn { game_id });
            } else if !record.players.accepted {
                return Err(ContractError::InviteNotAcceptedYet { game_id });
            } else if record.game.is_valid_move((position_x, position_y)) {
                let role = record.game.current_player.player.unwrap();
                record.game.apply_move((position_x, position_y), role);
                record.game.next_player(&record.players);
                match record.game.is_game_over(&record.players) {
                    GameStatus::Playing => {},
                    GameStatus::Draw => {
                        record.winner = None;
                        record.game_over = true;
                    },
                    GameStatus::Winner(winner) => {
                        record.winner = Some(winner);
                        record.game_over = true;
                    },
                }
            } else {
                return Err(ContractError::InvalidMove { game_id });
            }
            Ok(record)
        },
        None => Err(ContractError::GameIdNotFound { game_id }),
    }
}

/// The response to a move that left the session as `session`: it reports
/// the status and the winner once the game is over.
pub fn move_response(session: &GameSession) -> (res: Response)
    ensures
        attributes_of(res) == move_attributes(session@),
{
    let mut res = empty_response();
    if session.game_over {
        let winner = winner_name(&session.winner);
        proof {
            reveal_strlit("status");
            reveal_strlit("winner");
        }
        res = add_attribute(res, "status", "Game Over");
        res = add_attribute(res, "winner", winner.as_str());
    }
    res
}

/// How a status answer names the winner of a finished game: by name, or
/// as a draw.
pub fn status_winner_name(winner: &Option<PlayerDetails>) -> (r: String)
    ensures
        r@ == status_winner_text(view_of(*winner)),
{
    match winner {
        Some(w) => w.name.clone(),
        None => String::from_str("Draw"),
    }
}

/// The status of the game `game_id`, told from what is stored under it.
pub fn status_response(game_id: GameId, record: Option<GameSession>) -> (resp: GameStatusResponse)
    ensures
        resp@ == status_of(game_id, view_of(record)),
{
    let (status, winner) = match record {
        Some(record) => {
            if record.game_over {
                (String::from_str("Game Over"), status_winner_name(&record.winner))
            } else {
                (String::from_str("Game in progress"), String::from_str("None"))
            }
        },
        None => (String::from_str("Game not found"), String::from_str("None")),
    };
    GameStatusResponse { game_id, status, winner }
}

/// Whether an invite is well formed: open without accepter and roles, or
/// accepted by another address with the two roles given out.
pub fn check_invite(invite: &GameInvite) -> (ok: bool)
    ensures
        ok == invite_wf(invite@),
{
    if invite.accepted {
        match (&invite.accepted_player, invite.invite_player.player) {
            (Some(accepter), Some(role)) => same_role(accepter.player, Some(role.other()))
                && invite.invite_player.addr != accepter.addr,
            _ => false,
        }
    } else {
        invite.accepted_player.is_none() && invite.invite_player.player.is_none()
    }
}

/// Whether a session is well formed: a full-size board on which at most
/// one role has filled a line, an accepted and well-formed invite, one of
/// its players to move, and the outcome recorded as the board decides it.
pub fn check_session(session: &GameSession) -> (ok: bool)
    ensures
        ok == session_wf(session@),
{
    let board = &session.game.board;
    if board.len() != GRID_SIZE || board[0].len() != GRID_SIZE || board[1].len() != GRID_SIZE
        || board[2].len() != GRID_SIZE {
        return false;
    }
    if session.game.wins(Player::X) && session.game.wins(Player::O) {
        return false;
    }
    if !session.players.accepted || !check_invite(&session.players) {
        return false;
    }
    let accepter = match &session.players.accepted_player {
        Some(accepter) => accepter,
        None => {
            return false;
        },
    };
    if !same_player(&session.game.current_player, &session.players.invite_player) && !same_player(
        &session.game.current_player,
        accepter,
    ) {
        return false;
    }
    match session.game.is_game_over(&session.players) {
        GameStatus::Playing => !session.game_over && session.winner.is_none(),
        GameStatus::Draw => session.game_over && session.winner.is_none(),
        GameStatus::Winner(winner) => match &session.winner {
            Some(recorded) => session.game_over && same_player(recorded, &winner),
            None => false,
        },
    }
}

/// A handler did what a step of the state machine says: on success the
/// store is the next one and the response carries `attributes`; on refusal
/// the error is the step's and the store is as before.
pub open spec fn handled(
    step: Result<StoreView, ContractErrorView>,
    before: StoreView,
    after: StoreView,
    r: Result<Response, ContractError>,
    attributes: Seq<(Seq<char>, Seq<char>)>,
) -> bool {
    match step {
        Ok(next) => r matches Ok(response) && attributes_of(response) == attributes && after
            == next,
        Err(e) => r matches Err(err) && err@ == e && after == before,
    }
}

/// Sets up the contract: the counter of game ids at 0 and no open invite.
pub fn instantiate(store: &mut Store, _msg: InstantiateMsg) -> (response: Response)
    ensures
        final(store)@ == (StoreView {
            game_id_inc: 0,
            open_invites: Seq::empty(),
            ..old(store)@
        }),
        attributes_of(response) == Seq::<(Seq<char>, Seq<char>)>::empty(),
        old(store)@ == empty_store() ==> consistent(final(store)@),
{
    proof {
        lemma_empty_store_consistent();
    }
    store.save_game_id_inc(0);
    store.save_open_invites(OpenInvites { invites: Vec::new() });
    empty_response()
}

/// Process transaction for new game invites
pub fn execute_invite(store: &mut Store, sender: String, name: String) -> (r: Result<
    Response,
    ContractError,
>)
    requires
        consistent(old(store)@),
        check_name(name@) is Ok ==> old(store)@.game_id_inc < u128::MAX,
    ensures
        handled(
            invite_step(old(store)@, sender@, name@),
            old(store)@,
            final(store)@,
            r,
            Seq::empty(),
        ),
        consistent(final(store)@),
{
    proof {
        lemma_invite_keeps_consistent(store@, sender@, name@);
    }
    match validate_name(name.as_str()) {
        Err(e) => {
            return Err(e);
        },
        Ok(_) => {},
    }
    let game_id = next_game_id(store.game_id_inc());
    store.save_game_id_inc(game_id);
    let new_invite = GameInvite::new(sender.clone(), name);
    store.save_game_invite(game_id, new_invite);
    store.save_user_session(sender, game_id);

    let mut invites = store.open_invites();
    invites.push(game_id);
    store.save_open_invites(invites);
    Ok(empty_response())
}

/// Process transaction for accepted game invites
pub fn execute_accepted(store: &mut Store, sender: String, name: String, game_id: GameId) -> (r:
    Result<Response, ContractError>)
    requires
        consistent(old(store)@),
    ensures
        handled(
            accept_step(old(store)@, sender@, name@, game_id),
            old(store)@,
            final(store)@,
            r,
            Seq::empty(),
        ),
        consistent(final(store)@),
{
    proof {
        lemma_accept_keeps_consistent(store@, sender@, name@, game_id);
    }
    match validate_name(name.as_str()) {
        Err(e) => {
            return Err(e);
        },
        Ok(_) => {},
    }
    let record = store.game_invite(game_id);
    let mut invite = match accept_invite(record, sender.clone(), name, game_id) {
        Ok(invite) => invite,
        Err(e) => {
            return Err(e);
        },
    };
    let new_game = open_session(&mut invite);
    store.save_game_session(game_id, new_game);
    store.save_user_session(sender, game_id);
    store.save_game_invite(game_id, invite);

    let mut invites = store.open_invites();
    invites.remove(game_id);
    store.save_open_invites(invites);
    Ok(empty_response())
}

/// Process transaction for game moves from each player
pub fn execute_play(store: &mut Store, sender: String, position_x: u8, position_y: u8) -> (r:
    Result<Response, ContractError>)
    requires
        consistent(old(store)@),
    ensures
        handled(
            play_step(old(store)@, sender@, position_x as int, position_y as int),
            old(store)@,
            final(store)@,
            r,
            play_attributes(old(store)@, sender@, position_x as int, position_y as int),
        ),
        consistent(final(store)@),
{
    proof {
        lemma_play_keeps_consistent(store@, sender@, position_x as int, position_y as int);
    }
    let game_id = match active_session(store.user_session(&sender)) {
        Ok(game_id) => game_id,
        Err(e) => {
            return Err(e);
        },
    };
    let record = store.game_session(game_id);
    let session = match submit_move(record, &sender, game_id, position_x, position_y) {
        Ok(session) => session,
        Err(e) => {
            return Err(e);
        },
    };
    let res = move_response(&session);
    store.save_game_session(game_id, session);
    Ok(res)
}

/// Handles one message of `sender`.
pub fn execute(store: &mut Store, sender: String, msg: ExecuteMsg) -> (r: Result<
    Response,
    ContractError,
>)
    requires
        consistent(old(store)@),
        msg matches ExecuteMsg::Invite { name } ==> (check_name(name@) is Ok
            ==> old(store)@.game_id_inc < u128::MAX),
    ensures
        consistent(final(store)@),
        match msg {
            ExecuteMsg::Invite { name } => handled(
                invite_step(old(store)@, sender@, name@),
                old(store)@,
                final(store)@,
                r,
                Seq::empty(),
            ),
            ExecuteMsg::Accepted { name, game_id } => handled(
                accept_step(old(store)@, sender@, name@, game_id),
                old(store)@,
                final(store)@,
                r,
                Seq::empty(),
            ),
            ExecuteMsg::Play { position_x, position_y } => handled(
                play_step(old(store)@, sender@, position_x as int, position_y as int),
                old(store)@,
                final(store)@,
                r,
                play_attributes(old(store)@, sender@, position_x as int, position_y as int),
            ),
        },
{
    match msg {
        ExecuteMsg::Invite { name } => execute_invite(store, sender, name),
        ExecuteMsg::Accepted { name, game_id } => execute_accepted(store, sender, name, game_id),
        ExecuteMsg::Play { position_x, position_y } => execute_play(
            store,
            sender,
            position_x,
            position_y,
        ),
    }
}

/// Query for game status: Is game over or in progress, winner name or draw
pub fn query_game_status(store: &Store, game_id: GameId) -> (resp: GameStatusResponse)
    ensures
        resp@ == game_status_of(store@, game_id),
{
    status_response(game_id, store.game_session(game_id))
}

/// Query for board status: get all the cell positions
pub fn query_board_status(store: &Store, game_id: GameId) -> (resp: Option<BoardStatusResponse>)
    ensures
        view_of(resp) == board_status_of(store@, game_id),
{
    match store.game_session(game_id) {
        Some(record) => Some(BoardStatusResponse { board: record.game.board }),
        None => None,
    }
}

/// Query for open invites: get list of all open game ids
pub fn query_open_invites(store: &Store) -> (resp: OpenInvitesResponse)
    ensures
        resp@ == store@.open_invites,
{
    let invites = store.open_invites().invites;
    OpenInvitesResponse { invites }
}

/// Answers one query; only the board of a game that does not exist has no
/// answer.
pub fn query(store: &Store, msg: QueryMsg) -> (resp: Option<QueryResponse>)
    ensures
        view_of(resp) == match msg {
            QueryMsg::GameStatus { game_id } => Some(
                QueryView::GameStatus(game_status_of(store@, game_id)),
            ),
            QueryMsg::BoardStatus { game_id } => match board_status_of(store@, game_id) {
                Some(board) => Some(QueryView::BoardStatus(board)),
                None => None,
            },
            QueryMsg::OpenInvites {  } => Some(QueryView::OpenInvites(store@.open_invites)),
        },
{
    match msg {
        QueryMsg::GameStatus { game_id } => Some(
            QueryResponse::GameStatus(query_game_status(store, game_id)),
        ),
        QueryMsg::BoardStatus { game_id } => match query_board_status(store, game_id) {
            Some(resp) => Some(QueryResponse::BoardStatus(resp)),
            None => None,
        },
        QueryMsg::OpenInvites {  } => Some(QueryResponse::OpenInvites(query_open_invites(store))),
    }
}

} // verus!
