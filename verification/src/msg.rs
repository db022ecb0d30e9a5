//! The messages that the contract takes and the answers it gives.

use crate::state::{Board, GameId, Player};
use vstd::prelude::*;

verus! {

/// The message that sets the contract up; it carries nothing.
#[derive(Debug, PartialEq)]
pub struct InstantiateMsg {}

/// Valid transactions: Invite, Accepted, Play
#[derive(Debug, PartialEq)]
pub enum ExecuteMsg {
    Invite { name: String },
    Accepted { name: String, game_id: GameId },
    Play { position_x: u8, position_y: u8 },
}

/// Valid Queries: GameStatus, BoardStatus, OpenInvites
#[derive(Debug, PartialEq)]
pub enum QueryMsg {
    GameStatus { game_id: GameId },
    BoardStatus { game_id: GameId },
    OpenInvites {  },
}

/// Mathematical value of a [`GameStatusResponse`].
pub struct GameStatusResponseView {
    pub game_id: GameId,
    pub status: Seq<char>,
    pub winner: Seq<char>,
}

/// Response for game status query
#[derive(Debug, PartialEq)]
pub struct GameStatusResponse {
    pub game_id: GameId,
    pub status: String,
    pub winner: String,
}

impl View for GameStatusResponse {
    type V = GameStatusResponseView;

    open spec fn view(&self) -> GameStatusResponseView {
        GameStatusResponseView { game_id: self.game_id, status: self.status@, winner: self.winner@ }
    }
}

/// Response for board status query
#[derive(Debug, PartialEq)]
pub struct BoardStatusResponse {
    pub board: Vec<Vec<Option<Player>>>,
}

impl View for BoardStatusResponse {
    type V = Board;

    open spec fn view(&self) -> Board {
        Seq::new(self.board@.len(), |i: int| self.board@[i]@)
    }
}

/// Response for open game ids query
#[derive(Debug, PartialEq)]
pub struct OpenInvitesResponse {
    pub invites: Vec<GameId>,
}

impl View for OpenInvitesResponse {
    type V = Seq<GameId>;

    open spec fn view(&self) -> Seq<GameId> {
        self.invites@
    }
}

/// Mathematical value of a [`QueryResponse`].
pub enum QueryView {
    GameStatus(GameStatusResponseView),
    BoardStatus(Board),
    OpenInvites(Seq<GameId>),
}

/// The answer to a query, one form for each kind of query.
#[derive(Debug, PartialEq)]
pub enum QueryResponse {
    GameStatus(GameStatusResponse),
    BoardStatus(BoardStatusResponse),
    OpenInvites(OpenInvitesResponse),
}

impl View for QueryResponse {
    type V = QueryView;

    open spec fn view(&self) -> QueryView {
        match self {
            QueryResponse::GameStatus(r) => QueryView::GameStatus(r@),
            QueryResponse::BoardStatus(r) => QueryView::BoardStatus(r@),
            QueryResponse::OpenInvites(r) => QueryView::OpenInvites(r@),
        }
    }
}

} // verus!
