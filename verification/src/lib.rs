//! A verified two-player tic-tac-toe session engine.
//!
//! Players meet through an invite/accept handshake, roles are assigned by a
//! deterministic coin flip over the two addresses, and every move is checked
//! for turn order and legality before the board is evaluated for a win or a
//! draw. All state transitions are specified over mathematical views of the
//! data and proved against those specifications.
//!
//! - [`state`]: roles, players, invites, the board and its rules, sessions
//!   and the list of open invites.
//! - [`error`]: the reasons for which a call is refused.
//! - [`msg`]: the messages taken and the answers given.
//! - [`response`]: the response handed back to the host, a value of
//!   `cosmwasm_std` that is described by the attributes it carries.
//! - [`store`]: the persisted items, as a store of tables.
//! - [`model`]: the contract as a state machine over the value of the store,
//!   and the stores that it keeps consistent.
//! - [`contract`]: name validation, role assignment, the transitions of a
//!   stored invite and of a stored session, and the handlers that apply them
//!   to the store.
//! - [`laws`]: what holds of every call, proved from the state machine.

pub mod contract;
pub mod error;
pub mod laws;
pub mod model;
pub mod msg;
pub mod response;
pub mod state;
pub mod store;
