//! The reasons for which a call is rejected.

use crate::state::GameId;
use vstd::prelude::*;

verus! {

/// Mathematical value of a [`ContractError`].
pub enum ContractErrorView {
    YouCantPlayWithYourSelf,
    GameIdNotFound { game_id: GameId },
    InviteAlreadyAccepted { game_id: GameId },
    YourSessionNotFound,
    ItsNotYourTurn { game_id: GameId },
    InviteNotAcceptedYet { game_id: GameId },
    InvalidMove { game_id: GameId },
    GameOver { game_id: GameId, status: Seq<char>, winner: Seq<char> },
    NameTooShort { length: u64, min_length: u64 },
    NameTooLong { length: u64, max_length: u64 },
    InvalidCharacter { c: char },
}

/// All contract error messages
#[derive(Debug, PartialEq, Eq)]
pub enum ContractError {
    /// The accepting player is the one who posted the invite.
    YouCantPlayWithYourSelf {  },
    /// No invite or session is stored under the id.
    GameIdNotFound { game_id: GameId },
    /// The invite has been accepted before.
    InviteAlreadyAccepted { game_id: GameId },
    /// The caller has neither posted nor accepted an invite.
    YourSessionNotFound {  },
    /// The move belongs to the other player.
    ItsNotYourTurn { game_id: GameId },
    /// The session's invite has not been accepted.
    InviteNotAcceptedYet { game_id: GameId },
    /// The cell is outside the grid or occupied.
    InvalidMove { game_id: GameId },
    /// The game has ended; `winner` names the winner or tells of a draw.
    GameOver { game_id: GameId, status: String, winner: String },
    /// The name has fewer bytes than the minimum.
    NameTooShort { length: u64, min_length: u64 },
    /// The name has more bytes than the maximum.
    NameTooLong { length: u64, max_length: u64 },
    /// The name holds a character outside the allowed set.
    InvalidCharacter { c: char },
}

impl View for ContractError {
    type V = ContractErrorView;

    open spec fn view(&self) -> ContractErrorView {
        match self {
            ContractError::YouCantPlayWithYourSelf {  } => {
                ContractErrorView::YouCantPlayWithYourSelf
            },
            ContractError::GameIdNotFound { game_id } => ContractErrorView::GameIdNotFound {
                game_id: *game_id,
            },
            ContractError::InviteAlreadyAccepted { game_id } => {
                ContractErrorView::InviteAlreadyAccepted { game_id: *game_id }
            },
            ContractError::YourSessionNotFound {  } => ContractErrorView::YourSessionNotFound,
            ContractError::ItsNotYourTurn { game_id } => ContractErrorView::ItsNotYourTurn {
                game_id: *game_id,
            },
            ContractError::InviteNotAcceptedYet { game_id } => {
                ContractErrorView::InviteNotAcceptedYet { game_id: *game_id }
            },
            ContractError::InvalidMove { game_id } => ContractErrorView::InvalidMove {
                game_id: *game_id,
            },
            ContractError::GameOver { game_id, status, winner } => ContractErrorView::GameOver {
                game_id: *game_id,
                status: status@,
                winner: winner@,
            },
            ContractError::NameTooShort { length, min_length } => ContractErrorView::NameTooShort {
                length: *length,
                min_length: *min_length,
            },
            ContractError::NameTooLong { length, max_length } => ContractErrorView::NameTooLong {
                length: *length,
                max_length: *max_length,
            },
            ContractError::InvalidCharacter { c } => ContractErrorView::InvalidCharacter { c: *c },
        }
    }
}

} // verus!
