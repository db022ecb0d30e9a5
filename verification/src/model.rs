//! The contract as a state machine over the mathematical value of the store:
//! what each call does to it, which stores are consistent, and what holds of
//! every consistent store.

use crate::contract::{check_name, first_player_of, with_roles};
use crate::error::ContractErrorView;
use crate::msg::GameStatusResponseView;
use crate::state::{
    ascending, empty_board, evaluate, has_line, is_board, next_turn, place, valid_move, without,
    Board, GameId, GameInviteView, GameSessionView, GameStatusView, GameView, Player,
    PlayerDetailsView,
};
use crate::store::{empty_store, get, StoreView};
use vstd::prelude::*;

verus! {

/// The invite that `sender` posts under the display name `name`.
pub open spec fn new_invite(sender: Seq<char>, name: Seq<char>) -> GameInviteView {
    GameInviteView {
        invite_player: PlayerDetailsView { addr: sender, name, player: None },
        accepted_player: None,
        accepted: false,
    }
}

/// The store after `sender` posts an invite, or the reason for which the
/// name is refused.
pub open spec fn invite_step(s: StoreView, sender: Seq<char>, name: Seq<char>) -> Result<
    StoreView,
    ContractErrorView,
> {
    match check_name(name) {
        Err(e) => Err(e),
        Ok(_) => {
            let game_id = (s.game_id_inc + 1) as GameId;
            Ok(
                StoreView {
                    game_id_inc: game_id,
                    game_invites: s.game_invites.insert(game_id, new_invite(sender, name)),
                    game_session: s.game_session,
                    user_session: s.user_session.insert(sender, game_id),
                    open_invites: s.open_invites.push(game_id),
                },
            )
        },
    }
}

/// The stored invite once `sender` has accepted it, roles not yet assigned,
/// or the reason for which the acceptance is refused: no such invite, the
/// sender's own invite, or an invite that was accepted before.
pub open spec fn accepted_invite(
    record: Option<GameInviteView>,
    sender: Seq<char>,
    name: Seq<char>,
    game_id: GameId,
) -> Result<GameInviteView, ContractErrorView> {
    match record {
        None => Err(ContractErrorView::GameIdNotFound { game_id }),
        Some(invite) => if sender == invite.invite_player.addr {
            Err(ContractErrorView::YouCantPlayWithYourSelf)
        } else if invite.accepted {
            Err(ContractErrorView::InviteAlreadyAccepted { game_id })
        } else {
            Ok(
                GameInviteView {
                    invite_player: invite.invite_player,
                    accepted_player: Some(PlayerDetailsView { addr: sender, name, player: None }),
                    accepted: true,
                },
            )
        },
    }
}

/// The session that opens on an accepted invite: an empty board, the first
/// player to move, both roles assigned.
pub open spec fn opening_session(invite: GameInviteView) -> GameSessionView {
    GameSessionView {
        game: GameView { board: empty_board(), current_player: first_player_of(invite) },
        players: with_roles(invite),
        winner: None,
        game_over: false,
    }
}

/// The store after `sender` accepts the invite `game_id` under the display
/// name `name`, or the reason for which the call is refused. The name is
/// judged first.
pub open spec fn accept_step(
    s: StoreView,
    sender: Seq<char>,
    name: Seq<char>,
    game_id: GameId,
) -> Result<StoreView, ContractErrorView> {
    match check_name(name) {
        Err(e) => Err(e),
        Ok(_) => match accepted_invite(get(s.game_invites, game_id), sender, name, game_id) {
            Err(e) => Err(e),
            Ok(invite) => Ok(
                StoreView {
                    game_id_inc: s.game_id_inc,
                    game_invites: s.game_invites.insert(game_id, with_roles(invite)),
                    game_session: s.game_session.insert(game_id, opening_session(invite)),
                    user_session: s.user_session.insert(sender, game_id),
                    open_invites: without(s.open_invites, game_id),
                },
            ),
        },
    }
}

/// The player that an outcome names as the winner.
pub open spec fn awarded(status: GameStatusView) -> Option<PlayerDetailsView> {
    match status {
        GameStatusView::Winner(p) => Some(p),
        _ => None,
    }
}

/// How a refused or a last move reports the winner of a finished game: by
/// name, or as a draw.
pub open spec fn winner_text(winner: Option<PlayerDetailsView>) -> Seq<char> {
    match winner {
        Some(w) => w.name,
        None => "None, Draw"@,
    }
}

/// A move of `sender` gets as far as the board of the session: the game goes
/// on, it is the sender's turn, and the invite was accepted.
pub open spec fn reaches_board(r: GameSessionView, sender: Seq<char>) -> bool {
    !r.game_over && sender == r.game.current_player.addr && r.players.accepted
}

/// What a move needs of the session it is played in: a full-size board, a
/// role on the player to move and on the inviter, and an accepter.
pub open spec fn playable(r: GameSessionView) -> bool {
    &&& is_board(r.game.board)
    &&& r.game.current_player.player is Some
    &&& r.players.invite_player.player is Some
    &&& r.players.accepted_player is Some
}

/// The session after the player to move marks the cell at `(x, y)`: the
/// mark is set, the turn passes on, and the outcome is recorded if the
/// game has ended.
pub open spec fn after_move(r: GameSessionView, x: int, y: int) -> GameSessionView {
    let board = place(r.game.board, x, y, r.game.current_player.player.unwrap());
    let status = evaluate(board, r.players);
    GameSessionView {
        game: GameView { board, current_player: next_turn(r.game.current_player, r.players) },
        players: r.players,
        winner: if status is Playing {
            r.winner
        } else {
            awarded(status)
        },
        game_over: !(status is Playing),
    }
}

/// The stored session after `sender` moves at `(x, y)`, or the reason for
/// which the move is refused, in this order: no such session, the game is
/// over, it is the other player's turn, the invite was never accepted, the
/// move is not legal.
pub open spec fn moved(
    record: Option<GameSessionView>,
    sender: Seq<char>,
    game_id: GameId,
    x: int,
    y: int,
) -> Result<GameSessionView, ContractErrorView> {
    match record {
        None => Err(ContractErrorView::GameIdNotFound { game_id }),
        Some(r) => if r.game_over {
            Err(
                ContractErrorView::GameOver {
                    game_id,
                    status: "Game Over"@,
                    winner: winner_text(r.winner),
                },
            )
        } else if sender != r.game.current_player.addr {
            Err(ContractErrorView::ItsNotYourTurn { game_id })
        } else if !r.players.accepted {
            Err(ContractErrorView::InviteNotAcceptedYet { game_id })
        } else if valid_move(r.game.board, x, y) {
            Ok(after_move(r, x, y))
        } else {
            Err(ContractErrorView::InvalidMove { game_id })
        },
    }
}

/// The store after `sender` moves at `(x, y)` in their active session, or
/// the reason for which the move is refused.
pub open spec fn play_step(s: StoreView, sender: Seq<char>, x: int, y: int) -> Result<
    StoreView,
    ContractErrorView,
> {
    match get(s.user_session, sender) {
        None => Err(ContractErrorView::YourSessionNotFound),
        Some(game_id) => match moved(get(s.game_session, game_id), sender, game_id, x, y) {
            Err(e) => Err(e),
            Ok(r) => Ok(
                StoreView {
                    game_id_inc: s.game_id_inc,
                    game_invites: s.game_invites,
                    game_session: s.game_session.insert(game_id, r),
                    user_session: s.user_session,
                    open_invites: s.open_invites,
                },
            ),
        },
    }
}

/// The attributes that report the state of a session after a move: none
/// while the game goes on, the status and the winner once it is over.
pub open spec fn move_attributes(r: GameSessionView) -> Seq<(Seq<char>, Seq<char>)> {
    if r.game_over {
        seq![("status"@, "Game Over"@), ("winner"@, winner_text(r.winner))]
    } else {
        Seq::empty()
    }
}

/// The attributes of the response to a move: those of the session played
/// on, none where the move is refused.
pub open spec fn play_attributes(s: StoreView, sender: Seq<char>, x: int, y: int) -> Seq<
    (Seq<char>, Seq<char>),
> {
    match play_step(s, sender, x, y) {
        Ok(next) => move_attributes(next.game_session[s.user_session[sender]]),
        Err(_) => Seq::empty(),
    }
}

/// How a status answer names the winner of a finished game: by name, or
/// as a draw.
pub open spec fn status_winner_text(winner: Option<PlayerDetailsView>) -> Seq<char> {
    match winner {
        Some(w) => w.name,
        None => "Draw"@,
    }
}

/// The status of the game `game_id`, told from what is stored under it: over
/// with its winner or as a draw, in progress, or not found.
pub open spec fn status_of(
    game_id: GameId,
    record: Option<GameSessionView>,
) -> GameStatusResponseView {
    match record {
        Some(r) => if r.game_over {
            GameStatusResponseView {
                game_id,
                status: "Game Over"@,
                winner: status_winner_text(r.winner),
            }
        } else {
            GameStatusResponseView { game_id, status: "Game in progress"@, winner: "None"@ }
        },
        None => GameStatusResponseView { game_id, status: "Game not found"@, winner: "None"@ },
    }
}

/// The answer to a query for the status of the game `game_id`.
pub open spec fn game_status_of(s: StoreView, game_id: GameId) -> GameStatusResponseView {
    status_of(game_id, get(s.game_session, game_id))
}

/// The answer to a query for the board of the game `game_id`, if there is
/// such a game.
pub open spec fn board_status_of(s: StoreView, game_id: GameId) -> Option<Board> {
    match get(s.game_session, game_id) {
        Some(r) => Some(r.game.board),
        None => None,
    }
}

/// `addr` is the inviter or the accepter of `invite`.
pub open spec fn takes_part(invite: GameInviteView, addr: Seq<char>) -> bool {
    ||| invite.invite_player.addr == addr
    ||| invite.accepted_player matches Some(p) && p.addr == addr
}

/// An open invite names no accepter and no role; an accepted one names an
/// accepter with another address, and gives the two players the two roles.
pub open spec fn invite_wf(i: GameInviteView) -> bool {
    if i.accepted {
        &&& i.accepted_player is Some
        &&& i.invite_player.player is Some
        &&& i.accepted_player.unwrap().player == Some(i.invite_player.player.unwrap().spec_other())
        &&& i.invite_player.addr != i.accepted_player.unwrap().addr
    } else {
        &&& i.accepted_player is None
        &&& i.invite_player.player is None
    }
}

/// A session is played on a full-size board by the two players of an
/// accepted invite, one of whom is to move; at most one role has filled a
/// line; and it records as over exactly the games that the board decides,
/// with the winner that the board names.
pub open spec fn session_wf(s: GameSessionView) -> bool {
    &&& is_board(s.game.board)
    &&& !(has_line(s.game.board, Player::X) && has_line(s.game.board, Player::O))
    &&& s.players.accepted
    &&& invite_wf(s.players)
    &&& (s.game.current_player == s.players.invite_player || s.game.current_player
        == s.players.accepted_player.unwrap())
    &&& s.game_over == !(evaluate(s.game.board, s.players) is Playing)
    &&& s.winner == awarded(evaluate(s.game.board, s.players))
}

/// The stores that the contract can reach.
pub open spec fn consistent(s: StoreView) -> bool {
    &&& forall|g: GameId| #[trigger] s.game_invites.contains_key(g) <==> 1 <= g <= s.game_id_inc
    &&& forall|g: GameId| #[trigger]
        s.game_session.contains_key(g) <==> s.game_invites.contains_key(g)
            && s.game_invites[g].accepted
    &&& forall|g: GameId| #[trigger] s.game_invites.contains_key(g) ==> invite_wf(s.game_invites[g])
    &&& forall|g: GameId| #[trigger]
        s.game_session.contains_key(g) ==> session_wf(s.game_session[g])
            && s.game_session[g].players == s.game_invites[g]
    &&& ascending(s.open_invites)
    &&& forall|g: GameId| #[trigger]
        s.open_invites.contains(g) <==> s.game_invites.contains_key(g)
            && !s.game_invites[g].accepted
    &&& forall|a: Seq<char>| #[trigger]
        s.user_session.contains_key(a) ==> s.game_invites.contains_key(s.user_session[a])
            && takes_part(s.game_invites[s.user_session[a]], a)
}

/// On the empty board nobody has won and play goes on.
pub proof fn lemma_empty_board_undecided(players: GameInviteView)
    ensures
        evaluate(empty_board(), players) is Playing,
{
}

/// The store before the first invite is consistent.
pub proof fn lemma_empty_store_consistent()
    ensures
        consistent(empty_store()),
{
}

/// Posting an invite keeps the store consistent.
pub proof fn lemma_invite_keeps_consistent(s: StoreView, sender: Seq<char>, name: Seq<char>)
    requires
        consistent(s),
        check_name(name) is Ok ==> s.game_id_inc < u128::MAX,
    ensures
        invite_step(s, sender, name) matches Ok(next) ==> consistent(next),
{
    if let Ok(next) = invite_step(s, sender, name) {
        let game_id = (s.game_id_inc + 1) as GameId;
        let open = s.open_invites;
        assert forall|i: int| 0 <= i < open.len() implies open[i] < game_id by {
            assert(open.contains(open[i]));
        }
        assert forall|g: GameId| #[trigger]
            next.open_invites.contains(g) <==> next.game_invites.contains_key(g)
                && !next.game_invites[g].accepted by {
            if g == game_id {
                assert(next.open_invites[open.len() as int] == g);
            } else if open.contains(g) {
                assert(next.open_invites[open.index_of(g)] == g);
            }
        }
    }
}

/// Accepting an invite keeps the store consistent.
pub proof fn lemma_accept_keeps_consistent(
    s: StoreView,
    sender: Seq<char>,
    name: Seq<char>,
    game_id: GameId,
)
    requires
        consistent(s),
    ensures
        accept_step(s, sender, name, game_id) matches Ok(next) ==> consistent(next),
{
    if let Ok(next) = accept_step(s, sender, name, game_id) {
        let invite = accepted_invite(get(s.game_invites, game_id), sender, name, game_id)->Ok_0;
        let open = s.open_invites;
        let at = open.index_of(game_id);
        assert(session_wf(opening_session(invite))) by {
            lemma_empty_board_undecided(with_roles(invite));
        }
        assert forall|g: GameId| #[trigger]
            next.open_invites.contains(g) <==> next.game_invites.contains_key(g)
                && !next.game_invites[g].accepted by {
            if next.open_invites.contains(g) {
                assert(open.contains(g));
            } else if open.contains(g) && g != game_id {
                let i = open.index_of(g);
                if i < at {
                    assert(next.open_invites[i] == g);
                } else {
                    assert(next.open_invites[i - 1] == g);
                }
            }
        }
    }
}

/// A move keeps the store consistent.
pub proof fn lemma_play_keeps_consistent(s: StoreView, sender: Seq<char>, x: int, y: int)
    requires
        consistent(s),
    ensures
        play_step(s, sender, x, y) matches Ok(next) ==> consistent(next),
{
}

} // verus!
