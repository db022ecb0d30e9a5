//! What holds of the contract on every input, proved from the state machine.

use crate::contract::{
    allowed_char, check_name, first_player_of, inviter_moves_first, is_first_invalid, name_length,
    with_roles, MAX_NAME_LENGTH, MIN_NAME_LENGTH,
};
use crate::error::ContractErrorView;
use crate::model::{
    accept_step, after_move, consistent, invite_step, invite_wf, play_step, session_wf,
};
use crate::state::{
    evaluate, has_line, is_full, valid_move, winner_of, Board, GameId, GameInviteView,
    GameSessionView, GameStatusView, Player, PlayerDetailsView,
};
use crate::store::{get, StoreView};
use vstd::prelude::*;
use vstd::utf8::is_ascii_chars_encode_utf8;

verus! {

/// Every character of `name` is allowed.
pub open spec fn all_allowed(name: Seq<char>) -> bool {
    forall|i: int| 0 <= i < name.len() ==> allowed_char(#[trigger] name[i])
}

/// Before a character that is not allowed stands a first one.
proof fn lemma_first_invalid_exists(name: Seq<char>, i: int)
    requires
        0 <= i < name.len(),
        !allowed_char(name[i]),
    ensures
        exists|j: int| is_first_invalid(name, j),
    decreases i,
{
    if forall|j: int| 0 <= j < i ==> allowed_char(#[trigger] name[j]) {
        assert(is_first_invalid(name, i));
    } else {
        let j = choose|j: int| 0 <= j < i && !allowed_char(#[trigger] name[j]);
        lemma_first_invalid_exists(name, j);
    }
}

/// A name is accepted if and only if it has 3 to 64 characters, all of them
/// allowed. Any other name is refused for the first rule that it breaks:
/// for its length in bytes if that is under 3 or over 64, else for the
/// first of its characters that is not allowed.
pub proof fn law_names(name: Seq<char>)
    ensures
        check_name(name) is Ok <==> MIN_NAME_LENGTH <= name.len() <= MAX_NAME_LENGTH
            && all_allowed(name),
        name_length(name) < MIN_NAME_LENGTH ==> (check_name(name) matches Err(
            ContractErrorView::NameTooShort { min_length, .. },
        ) && min_length == MIN_NAME_LENGTH),
        name_length(name) > MAX_NAME_LENGTH ==> (check_name(name) matches Err(
            ContractErrorView::NameTooLong { max_length, .. },
        ) && max_length == MAX_NAME_LENGTH),
        MIN_NAME_LENGTH <= name_length(name) <= MAX_NAME_LENGTH && !all_allowed(name) ==> (
        check_name(name) matches Err(ContractErrorView::InvalidCharacter { c }) && exists|i: int|
            is_first_invalid(name, i) && name[i] == c),
{
    if all_allowed(name) {
        is_ascii_chars_encode_utf8(name);
    } else {
        let i = choose|i: int| 0 <= i < name.len() && !allowed_char(#[trigger] name[i]);
        lemma_first_invalid_exists(name, i);
    }
}

/// A posted invite is appended to the open invites under the next id, and
/// accepting it gives back the open invites as they were.
pub proof fn law_invite_opens_and_accept_closes(
    s: StoreView,
    inviter: Seq<char>,
    inviter_name: Seq<char>,
    accepter: Seq<char>,
    accepter_name: Seq<char>,
)
    requires
        consistent(s),
        check_name(inviter_name) is Ok ==> s.game_id_inc < u128::MAX,
    ensures
        invite_step(s, inviter, inviter_name) matches Ok(posted) ==> {
            let game_id = (s.game_id_inc + 1) as GameId;
            &&& posted.open_invites == s.open_invites.push(game_id)
            &&& accept_step(posted, accepter, accepter_name, game_id) matches Ok(accepted)
                ==> accepted.open_invites == s.open_invites
        },
{
    if let Ok(posted) = invite_step(s, inviter, inviter_name) {
        let game_id = (s.game_id_inc + 1) as GameId;
        let open = posted.open_invites;
        if accept_step(posted, accepter, accepter_name, game_id) is Ok {
            assert(open[s.open_invites.len() as int] == game_id);
            assert forall|i: int| 0 <= i < s.open_invites.len() implies s.open_invites[i]
                != game_id by {
                assert(s.open_invites.contains(s.open_invites[i]));
            }
        }
    }
}

/// Whoever accepts their own invite under a valid name is refused for
/// playing with themselves, whether the invite is still open or not.
pub proof fn law_own_invite_refused(
    s: StoreView,
    sender: Seq<char>,
    name: Seq<char>,
    game_id: GameId,
)
    requires
        check_name(name) is Ok,
        s.game_invites.contains_key(game_id),
        s.game_invites[game_id].invite_player.addr == sender,
    ensures
        accept_step(s, sender, name, game_id) == Err::<StoreView, ContractErrorView>(
            ContractErrorView::YouCantPlayWithYourSelf,
        ),
{
}

/// After an acceptance the session exists, exactly one of its two players
/// carries the first role, and that player is the one to move.
pub proof fn law_first_role_moves_first(
    s: StoreView,
    sender: Seq<char>,
    name: Seq<char>,
    game_id: GameId,
)
    ensures
        accept_step(s, sender, name, game_id) matches Ok(next) ==> {
            let session = next.game_session[game_id];
            let inviter = session.players.invite_player;
            let accepter = session.players.accepted_player.unwrap();
            &&& next.game_session.contains_key(game_id)
            &&& session.players.accepted_player is Some
            &&& (inviter.player == Some(Player::X)) != (accepter.player == Some(Player::X))
            &&& session.game.current_player == if inviter.player == Some(Player::X) {
                inviter
            } else {
                accepter
            }
        },
{
}

/// Whoever sits on the two seats of an accepted invite, exactly one of them
/// is given the first role, and that one is the first player; the other
/// is given the second role.
pub proof fn law_first_player_holds_first_role(invite: GameInviteView)
    requires
        invite.accepted_player is Some,
    ensures
        ({
            let inviter = with_roles(invite).invite_player;
            let accepter = with_roles(invite).accepted_player.unwrap();
            &&& first_player_of(invite).player == Some(Player::X)
            &&& (inviter.player == Some(Player::X)) != (accepter.player == Some(Player::X))
            &&& (inviter.player == Some(Player::O)) != (accepter.player == Some(Player::O))
            &&& first_player_of(invite) == if inviter_moves_first(
                invite.invite_player.addr,
                invite.accepted_player.unwrap().addr,
            ) {
                inviter
            } else {
                accepter
            }
        }),
{
}

/// Who moves first depends on the two addresses alone.
pub proof fn law_first_mover_repeats(a: GameInviteView, b: GameInviteView)
    requires
        a.accepted_player is Some,
        b.accepted_player is Some,
        a.invite_player.addr == b.invite_player.addr,
        a.accepted_player.unwrap().addr == b.accepted_player.unwrap().addr,
    ensures
        first_player_of(a).addr == first_player_of(b).addr,
        first_player_of(a).player == Some(Player::X),
{
}

/// The player of `players` who carries the role `p`.
pub open spec fn holder(players: GameInviteView, p: Player) -> PlayerDetailsView {
    if players.invite_player.player == Some(p) {
        players.invite_player
    } else {
        players.accepted_player.unwrap()
    }
}

/// A filled line of a role, where the other role has none, makes the player
/// who carries that role the winner; a full board without a filled line is a
/// draw; on any other board without a filled line play goes on.
pub proof fn law_outcome(b: Board, players: GameInviteView, p: Player)
    requires
        players.accepted,
        invite_wf(players),
    ensures
        has_line(b, p) && !has_line(b, p.spec_other()) ==> winner_of(b) == Some(p) && evaluate(
            b,
            players,
        ) == GameStatusView::Winner(holder(players, p)) && holder(players, p).player == Some(p),
        has_line(b, p) ==> evaluate(b, players) is Winner,
        !has_line(b, p) && !has_line(b, p.spec_other()) && is_full(b) ==> evaluate(b, players)
            is Draw,
        !has_line(b, p) && !has_line(b, p.spec_other()) && !is_full(b) ==> evaluate(b, players)
            is Playing,
{
}

/// Once a game is over, every move in it is refused with the game-over
/// error, whoever sends it and whatever the cell.
pub proof fn law_no_move_after_game_over(s: StoreView, sender: Seq<char>, x: int, y: int)
    requires
        s.user_session.contains_key(sender),
        s.game_session.contains_key(s.user_session[sender]),
        s.game_session[s.user_session[sender]].game_over,
    ensures
        play_step(s, sender, x, y) matches Err(ContractErrorView::GameOver { game_id, .. })
            && game_id == s.user_session[sender],
{
}

/// After a move that does not end the game, a second move of the same
/// player is refused: it is the other player's turn.
pub proof fn law_turns_alternate(
    s: StoreView,
    sender: Seq<char>,
    x: int,
    y: int,
    again_x: int,
    again_y: int,
)
    requires
        consistent(s),
    ensures
        play_step(s, sender, x, y) matches Ok(next) ==> {
            let game_id = s.user_session[sender];
            ||| next.game_session[game_id].game_over
            ||| play_step(next, sender, again_x, again_y) == Err::<StoreView, ContractErrorView>(
                ContractErrorView::ItsNotYourTurn { game_id },
            )
        },
{
    if let Ok(next) = play_step(s, sender, x, y) {
        let game_id = s.user_session[sender];
        assert(session_wf(s.game_session[game_id]));
        assert(next.game_session[game_id].game.current_player.addr != sender);
    }
}

/// A move changes the session it is played in and nothing else: every
/// other session, every invite, every active session and the open invites
/// stay as they were.
pub proof fn law_move_leaves_other_sessions(
    s: StoreView,
    sender: Seq<char>,
    x: int,
    y: int,
    other: GameId,
)
    ensures
        play_step(s, sender, x, y) matches Ok(next) ==> {
            &&& other != s.user_session[sender] ==> get(next.game_session, other) == get(
                s.game_session,
                other,
            )
            &&& next.game_invites == s.game_invites
            &&& next.user_session == s.user_session
            &&& next.open_invites == s.open_invites
            &&& next.game_id_inc == s.game_id_inc
        },
{
}

/// Posting or accepting an invite leaves every session and invite under
/// another id as it was.
pub proof fn law_handshake_leaves_other_sessions(
    s: StoreView,
    sender: Seq<char>,
    name: Seq<char>,
    game_id: GameId,
    other: GameId,
)
    requires
        check_name(name) is Ok ==> s.game_id_inc < u128::MAX,
    ensures
        invite_step(s, sender, name) matches Ok(next) ==> {
            &&& next.game_session == s.game_session
            &&& other != s.game_id_inc + 1 ==> get(next.game_invites, other) == get(
                s.game_invites,
                other,
            )
        },
        accept_step(s, sender, name, game_id) matches Ok(next) ==> (other != game_id ==> {
            &&& get(next.game_session, other) == get(s.game_session, other)
            &&& get(next.game_invites, other) == get(s.game_invites, other)
        }),
{
}

/// In a well-formed session the role of the player to move is the role of
/// exactly one of the two players.
pub proof fn law_turn_belongs_to_one_player(s: GameSessionView)
    requires
        session_wf(s),
    ensures
        (s.game.current_player.player == s.players.invite_player.player) != (
        s.game.current_player.player == s.players.accepted_player.unwrap().player),
{
}

/// In a consistent store an id is never both an open invite and a session,
/// and every open invite and every session is an invite that was posted.
pub proof fn law_pending_or_live(s: StoreView, game_id: GameId)
    requires
        consistent(s),
    ensures
        !(s.open_invites.contains(game_id) && s.game_session.contains_key(game_id)),
        s.open_invites.contains(game_id) || s.game_session.contains_key(game_id)
            <==> s.game_invites.contains_key(game_id),
        s.game_invites.contains_key(game_id) <==> 1 <= game_id <= s.game_id_inc,
{
}

/// Ids are given out once and in rising order: a posted invite takes the
/// id after the counter, which no invite had before, and neither an
/// acceptance nor a move touches the counter.
pub proof fn law_ids_rise(
    s: StoreView,
    sender: Seq<char>,
    name: Seq<char>,
    game_id: GameId,
    x: int,
    y: int,
)
    requires
        consistent(s),
        check_name(name) is Ok ==> s.game_id_inc < u128::MAX,
    ensures
        invite_step(s, sender, name) matches Ok(next) ==> {
            &&& next.game_id_inc == s.game_id_inc + 1
            &&& !s.game_invites.contains_key(next.game_id_inc)
            &&& next.game_invites.contains_key(next.game_id_inc)
            &&& next.user_session[sender] == next.game_id_inc
        },
        accept_step(s, sender, name, game_id) matches Ok(next) ==> next.game_id_inc
            == s.game_id_inc,
        play_step(s, sender, x, y) matches Ok(next) ==> next.game_id_inc == s.game_id_inc,
{
}

/// A legal move fills one empty cell and leaves every other cell as it
/// was.
pub proof fn law_move_marks_one_cell(r: GameSessionView, x: int, y: int, i: int, j: int)
    requires
        session_wf(r),
        valid_move(r.game.board, x, y),
        0 <= i < 3,
        0 <= j < 3,
    ensures
        after_move(r, x, y).game.board[i][j] == if i == x && j == y {
            r.game.current_player.player
        } else {
            r.game.board[i][j]
        },
        r.game.board[x][y] is None,
        r.game.current_player.player is Some,
{
}

/// In a well-formed session a filled line of a role ends the game with the
/// player who carries that role as the winner; without a filled line a full
/// board ends it in a draw, and any other board leaves it open.
pub proof fn law_line_decides_session(s: GameSessionView, p: Player)
    requires
        session_wf(s),
    ensures
        has_line(s.game.board, p) ==> s.game_over && s.winner == Some(holder(s.players, p))
            && holder(s.players, p).player == Some(p),
        !has_line(s.game.board, p) && !has_line(s.game.board, p.spec_other()) ==> s.winner
            is None && s.game_over == is_full(s.game.board),
{
}

} // verus!
