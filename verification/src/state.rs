//! The data model: roles, players, invites, the board and game sessions.

use vstd::prelude::*;

verus! {

/// Game id type
pub type GameId = u128;

/// Grid size (3 by 3)
pub const GRID_SIZE: usize = 3;

/// Win condition: all 3 cells of a row, a column or a diagonal need to be
/// the same
pub const WIN_COND: usize = 3;

/// First player role
pub const FIRST_PLAYER: Player = Player::X;

/// Roles for player
#[derive(Clone, Copy, Debug, PartialEq, Eq, Structural)]
pub enum Player {
    X,
    O,
}

impl Player {
    /// The role of the opponent.
    pub open spec fn spec_other(self) -> Player {
        match self {
            Player::X => Player::O,
            Player::O => Player::X,
        }
    }

    /// The role of the opponent.
    #[verifier::when_used_as_spec(spec_other)]
    pub fn other(self) -> (r: Player)
        ensures
            r == self.spec_other(),
    {
        match self {
            Player::X => Player::O,
            Player::O => Player::X,
        }
    }
}

/// The mathematical value of what an option holds, if anything.
pub open spec fn view_of<T: View>(o: Option<T>) -> Option<T::V> {
    match o {
        Some(x) => Some(x@),
        None => None,
    }
}

/// Whether two optional roles are the same.
pub fn same_role(a: Option<Player>, b: Option<Player>) -> (r: bool)
    ensures
        r == (a == b),
{
    match (a, b) {
        (Some(Player::X), Some(Player::X)) => true,
        (Some(Player::O), Some(Player::O)) => true,
        (None, None) => true,
        _ => false,
    }
}

/// Mathematical value of a [`PlayerDetails`].
pub struct PlayerDetailsView {
    pub addr: Seq<char>,
    pub name: Seq<char>,
    pub player: Option<Player>,
}

/// Player details that stores address, name and roles
#[derive(Debug, PartialEq, Eq)]
pub struct PlayerDetails {
    pub addr: String,
    pub name: String,
    pub player: Option<Player>,
}

impl View for PlayerDetails {
    type V = PlayerDetailsView;

    open spec fn view(&self) -> PlayerDetailsView {
        PlayerDetailsView { addr: self.addr@, name: self.name@, player: self.player }
    }
}

/// Whether two players have the same address, name and role.
pub fn same_player(a: &PlayerDetails, b: &PlayerDetails) -> (r: bool)
    ensures
        r == (a@ == b@),
{
    a.addr == b.addr && a.name == b.name && same_role(a.player, b.player)
}

impl Clone for PlayerDetails {
    fn clone(&self) -> (r: Self)
        ensures
            r@ == self@,
    {
        PlayerDetails { addr: self.addr.clone(), name: self.name.clone(), player: self.player }
    }
}

/// A grid of cells, row by row; `None` is an empty cell.
pub type Board = Seq<Seq<Option<Player>>>;

/// The grid has exactly three rows of three cells.
pub open spec fn is_board(b: Board) -> bool {
    &&& b.len() == GRID_SIZE
    &&& b[0].len() == GRID_SIZE
    &&& b[1].len() == GRID_SIZE
    &&& b[2].len() == GRID_SIZE
}

/// The cell in row `x`, column `y` holds the mark of `p`.
pub open spec fn has(b: Board, p: Player, x: int, y: int) -> bool {
    b[x][y] == Some(p)
}

/// Row `i` is filled with marks of `p`.
pub open spec fn row_win(b: Board, p: Player, i: int) -> bool {
    has(b, p, i, 0) && has(b, p, i, 1) && has(b, p, i, 2)
}

/// Column `i` is filled with marks of `p`.
pub open spec fn col_win(b: Board, p: Player, i: int) -> bool {
    has(b, p, 0, i) && has(b, p, 1, i) && has(b, p, 2, i)
}

/// The diagonal from the top left is filled with marks of `p`.
pub open spec fn diag_win(b: Board, p: Player) -> bool {
    has(b, p, 0, 0) && has(b, p, 1, 1) && has(b, p, 2, 2)
}

/// The diagonal from the top right is filled with marks of `p`.
pub open spec fn anti_diag_win(b: Board, p: Player) -> bool {
    has(b, p, 0, 2) && has(b, p, 1, 1) && has(b, p, 2, 0)
}

/// One of the eight lines of the grid is filled with marks of `p`.
pub open spec fn has_line(b: Board, p: Player) -> bool {
    ||| row_win(b, p, 0)
    ||| row_win(b, p, 1)
    ||| row_win(b, p, 2)
    ||| col_win(b, p, 0)
    ||| col_win(b, p, 1)
    ||| col_win(b, p, 2)
    ||| diag_win(b, p)
    ||| anti_diag_win(b, p)
}

/// The role that owns a filled line, `X` taking precedence.
pub open spec fn winner_of(b: Board) -> Option<Player> {
    if has_line(b, Player::X) {
        Some(Player::X)
    } else if has_line(b, Player::O) {
        Some(Player::O)
    } else {
        None
    }
}

/// Every cell of every row is occupied.
pub open spec fn is_full(b: Board) -> bool {
    forall|i: int, j: int| 0 <= i < b.len() && 0 <= j < b[i].len() ==> (#[trigger] b[i][j]) is Some
}

/// A move at `(x, y)` is legal: inside the grid and on an empty cell.
pub open spec fn valid_move(b: Board, x: int, y: int) -> bool {
    0 <= x < GRID_SIZE && 0 <= y < GRID_SIZE && b[x][y] is None
}

/// The grid after `p` marks the cell in row `x`, column `y`.
pub open spec fn place(b: Board, x: int, y: int, p: Player) -> Board {
    b.update(x, b[x].update(y, Some(p)))
}

/// The grid with no marks.
pub open spec fn empty_board() -> Board {
    Seq::new(GRID_SIZE as nat, |i: int| Seq::new(GRID_SIZE as nat, |j: int| None))
}

/// Mathematical value of a [`GameInvite`].
pub struct GameInviteView {
    pub invite_player: PlayerDetailsView,
    pub accepted_player: Option<PlayerDetailsView>,
    pub accepted: bool,
}

/// Players information: Invitee player, player who accepted and accepted status
#[derive(Debug, PartialEq, Eq)]
pub struct GameInvite {
    pub invite_player: PlayerDetails,
    pub accepted_player: Option<PlayerDetails>,
    pub accepted: bool,
}

impl View for GameInvite {
    type V = GameInviteView;

    open spec fn view(&self) -> GameInviteView {
        GameInviteView {
            invite_player: self.invite_player@,
            accepted_player: view_of(self.accepted_player),
            accepted: self.accepted,
        }
    }
}

impl GameInvite {
    /// The invite that `addr` posts under the display name `name`: nobody
    /// has accepted it and no role is given out.
    pub fn new(addr: String, name: String) -> (invite: GameInvite)
        ensures
            invite@ == (GameInviteView {
                invite_player: PlayerDetailsView { addr: addr@, name: name@, player: None },
                accepted_player: None,
                accepted: false,
            }),
    {
        GameInvite {
            invite_player: PlayerDetails { addr, name, player: None },
            accepted_player: None,
            accepted: false,
        }
    }
}

impl Clone for GameInvite {
    fn clone(&self) -> (r: Self)
        ensures
            r@ == self@,
    {
        GameInvite {
            invite_player: self.invite_player.clone(),
            accepted_player: match &self.accepted_player {
                Some(p) => Some(p.clone()),
                None => None,
            },
            accepted: self.accepted,
        }
    }
}

/// Mathematical value of a [`GameStatus`].
pub enum GameStatusView {
    Playing,
    Draw,
    Winner(PlayerDetailsView),
}

/// Stores game status: current situation of the game
#[derive(Debug, PartialEq, Eq)]
pub enum GameStatus {
    Playing,
    Draw,
    Winner(PlayerDetails),
}

impl View for GameStatus {
    type V = GameStatusView;

    open spec fn view(&self) -> GameStatusView {
        match self {
            GameStatus::Playing => GameStatusView::Playing,
            GameStatus::Draw => GameStatusView::Draw,
            GameStatus::Winner(p) => GameStatusView::Winner(p@),
        }
    }
}

impl Clone for GameStatus {
    fn clone(&self) -> (r: Self)
        ensures
            r@ == self@,
    {
        match self {
            GameStatus::Playing => GameStatus::Playing,
            GameStatus::Draw => GameStatus::Draw,
            GameStatus::Winner(p) => GameStatus::Winner(p.clone()),
        }
    }
}

/// The outcome of a grid for the two players of `players`: the holder of the
/// winning role if a line is filled, a draw if the grid is full, else play
/// goes on.
pub open spec fn evaluate(b: Board, players: GameInviteView) -> GameStatusView {
    match winner_of(b) {
        Some(w) => if players.invite_player.player == Some(w) {
            GameStatusView::Winner(players.invite_player)
        } else {
            GameStatusView::Winner(players.accepted_player.unwrap())
        },
        None => if is_full(b) {
            GameStatusView::Draw
        } else {
            GameStatusView::Playing
        },
    }
}

/// The player whose turn follows that of `current`: the accepter after the
/// inviter's role, the inviter after any other.
pub open spec fn next_turn(
    current: PlayerDetailsView,
    players: GameInviteView,
) -> PlayerDetailsView {
    if current.player == players.invite_player.player {
        players.accepted_player.unwrap()
    } else {
        players.invite_player
    }
}

/// Mathematical value of a [`Game`].
pub struct GameView {
    pub board: Board,
    pub current_player: PlayerDetailsView,
}

/// Stores board state and current player information
#[derive(Debug, PartialEq, Eq)]
pub struct Game {
    pub board: Vec<Vec<Option<Player>>>,
    pub current_player: PlayerDetails,
}

impl View for Game {
    type V = GameView;

    open spec fn view(&self) -> GameView {
        GameView {
            board: Seq::new(self.board@.len(), |i: int| self.board@[i]@),
            current_player: self.current_player@,
        }
    }
}

impl Game {
    /// The board holds three rows of three cells.
    pub open spec fn wf(&self) -> bool {
        is_board(self@.board)
    }

    /// Initiate new game, initialize the board and current player with first player
    pub fn new(first_player: PlayerDetails) -> (g: Game)
        ensures
            g.wf(),
            g@.board == empty_board(),
            g@.current_player == first_player@,
    {
        let mut board: Vec<Vec<Option<Player>>> = Vec::new();
        let mut i: usize = 0;
        while i < GRID_SIZE
            invariant
                i <= GRID_SIZE,
                board@.len() == i,
                forall|k: int| 0 <= k < i ==> (#[trigger] board@[k])@ == Seq::new(
                    GRID_SIZE as nat,
                    |j: int| None::<Player>,
                ),
            decreases GRID_SIZE - i,
        {
            let mut row: Vec<Option<Player>> = Vec::new();
            let mut j: usize = 0;
            while j < GRID_SIZE
                invariant
                    j <= GRID_SIZE,
                    row@.len() == j,
                    forall|k: int| 0 <= k < j ==> (#[trigger] row@[k]) is None,
                decreases GRID_SIZE - j,
            {
                row.push(None);
                j += 1;
            }
            board.push(row);
            i += 1;
        }
        let g = Game { board, current_player: first_player };
        g
    }

    /// Whether the cell in row `x`, column `y` carries the mark of `player`.
    fn has(&self, player: Player, x: usize, y: usize) -> (r: bool)
        requires
            self.wf(),
            x < GRID_SIZE,
            y < GRID_SIZE,
        ensures
            r == has(self@.board, player, x as int, y as int),
    {
        match self.board[x][y] {
            Some(p) => p == player,
            None => false,
        }
    }

    /// Whether one of the eight lines is filled with marks of `player`.
    pub fn wins(&self, player: Player) -> (r: bool)
        requires
            self.wf(),
        ensures
            r == has_line(self@.board, player),
    {
        let mut i: usize = 0;
        while i < GRID_SIZE
            invariant
                self.wf(),
                i <= GRID_SIZE,
                forall|k: int|
                    0 <= k < i ==> !row_win(self@.board, player, k) && !col_win(
                        self@.board,
                        player,
                        k,
                    ),
            decreases GRID_SIZE - i,
        {
            if self.has(player, i, 0) && self.has(player, i, 1) && self.has(player, i, 2) {
                return true;
            }
            if self.has(player, 0, i) && self.has(player, 1, i) && self.has(player, 2, i) {
                return true;
            }
            i += 1;
        }
        if self.has(player, 0, 0) && self.has(player, 1, 1) && self.has(player, 2, 2) {
            return true;
        }
        self.has(player, 0, 2) && self.has(player, 1, 1) && self.has(player, 2, 0)
    }

    /// Checks is all the cells are full (or used)
    pub fn is_ended(&self) -> (r: bool)
        ensures
            r == is_full(self@.board),
    {
        let mut i: usize = 0;
        while i < self.board.len()
            invariant
                i <= self.board@.len(),
                forall|k: int, j: int|
                    0 <= k < i && 0 <= j < self@.board[k].len() ==> (
                    #[trigger] self@.board[k][j]) is Some,
            decreases self.board@.len() - i,
        {
            let row = &self.board[i];
            let mut j: usize = 0;
            while j < row.len()
                invariant
                    i < self.board@.len(),
                    row@ == self@.board[i as int],
                    j <= row@.len(),
                    forall|k: int| 0 <= k < j ==> (#[trigger] row@[k]) is Some,
                decreases row@.len() - j,
            {
                if row[j].is_none() {
                    return false;
                }
                j += 1;
            }
            i += 1;
        }
        true
    }

    /// Checks if the move (input) is valid
    pub fn is_valid_move(&self, position: (u8, u8)) -> (r: bool)
        requires
            self.wf(),
        ensures
            r == valid_move(self@.board, position.0 as int, position.1 as int),
    {
        if position.0 as usize >= GRID_SIZE || position.1 as usize >= GRID_SIZE {
            return false;
        }
        self.board[position.0 as usize][position.1 as usize].is_none()
    }

    /// Writes the mark of `player` on the cell at `position`.
    pub fn apply_move(&mut self, position: (u8, u8), player: Player)
        requires
            old(self).wf(),
            valid_move(old(self)@.board, position.0 as int, position.1 as int),
        ensures
            final(self).wf(),
            final(self)@.board == place(
                old(self)@.board,
                position.0 as int,
                position.1 as int,
                player,
            ),
            final(self)@.current_player == old(self)@.current_player,
    {
        let x = position.0 as usize;
        let y = position.1 as usize;
        self.board[x][y] = Some(player);
    }

    /// Finds the next player, alternate between two players
    pub fn next_player(&mut self, players: &GameInvite)
        requires
            old(self)@.current_player.player == players@.invite_player.player
                ==> players@.accepted_player is Some,
        ensures
            final(self)@.current_player == next_turn(old(self)@.current_player, players@),
            final(self)@.board == old(self)@.board,
    {
        if same_role(self.current_player.player, players.invite_player.player) {
            self.current_player = players.accepted_player.as_ref().unwrap().clone();
        } else {
            self.current_player = players.invite_player.clone();
        }
    }

    /// Checks if the game is over and returns winner (None, if there is no winner)
    pub fn is_game_over(&self, players: &GameInvite) -> (r: GameStatus)
        requires
            self.wf(),
            winner_of(self@.board) matches Some(w) ==> players@.invite_player.player is Some && (
            players@.invite_player.player != Some(w) ==> players@.accepted_player is Some),
        ensures
            r@ == evaluate(self@.board, players@),
    {
        match self.get_winner() {
            Some(winner) => {
                if winner == players.invite_player.player.unwrap() {
                    GameStatus::Winner(players.invite_player.clone())
                } else {
                    GameStatus::Winner(players.accepted_player.as_ref().unwrap().clone())
                }
            },
            None => {
                if self.is_ended() {
                    GameStatus::Draw
                } else {
                    GameStatus::Playing
                }
            },
        }
    }

    /// Checks all valid win conditions
    pub fn get_winner(&self) -> (r: Option<Player>)
        requires
            self.wf(),
        ensures
            r == winner_of(self@.board),
    {
        if self.wins(Player::X) {
            Some(Player::X)
        } else if self.wins(Player::O) {
            Some(Player::O)
        } else {
            None
        }
    }
}

impl Clone for Game {
    fn clone(&self) -> (r: Self)
        ensures
            r@ == self@,
    {
        let mut board: Vec<Vec<Option<Player>>> = Vec::new();
        let mut i: usize = 0;
        while i < self.board.len()
            invariant
                i <= self.board@.len(),
                board@.len() == i,
                forall|k: int| 0 <= k < i ==> (#[trigger] board@[k])@ == self.board@[k]@,
            decreases self.board@.len() - i,
        {
            let source = &self.board[i];
            let mut row: Vec<Option<Player>> = Vec::new();
            let mut j: usize = 0;
            while j < source.len()
                invariant
                    j <= source@.len(),
                    row@.len() == j,
                    forall|k: int| 0 <= k < j ==> (#[trigger] row@[k]) == source@[k],
                decreases source@.len() - j,
            {
                row.push(source[j]);
                j += 1;
            }
            board.push(row);
            i += 1;
        }
        let r = Game { board, current_player: self.current_player.clone() };
        assert(r@.board =~= self@.board);
        r
    }
}

/// Mathematical value of a [`GameSession`].
pub struct GameSessionView {
    pub game: GameView,
    pub players: GameInviteView,
    pub winner: Option<PlayerDetailsView>,
    pub game_over: bool,
}

/// Stores game session: board and turn, players information, final winner
/// (None, if no winner) and game over status
#[derive(Debug, PartialEq, Eq)]
pub struct GameSession {
    pub game: Game,
    pub players: GameInvite,
    pub winner: Option<PlayerDetails>,
    pub game_over: bool,
}

impl View for GameSession {
    type V = GameSessionView;

    open spec fn view(&self) -> GameSessionView {
        GameSessionView {
            game: self.game@,
            players: self.players@,
            winner: view_of(self.winner),
            game_over: self.game_over,
        }
    }
}

impl Clone for GameSession {
    fn clone(&self) -> (r: Self)
        ensures
            r@ == self@,
    {
        GameSession {
            game: self.game.clone(),
            players: self.players.clone(),
            winner: match &self.winner {
                Some(p) => Some(p.clone()),
                None => None,
            },
            game_over: self.game_over,
        }
    }
}

/// The ids rise strictly from each position to the next.
pub open spec fn ascending(ids: Seq<GameId>) -> bool {
    forall|i: int, j: int| 0 <= i < j < ids.len() ==> ids[i] < ids[j]
}

/// The ids of `ids` without `game_id`, in their order.
pub open spec fn without(ids: Seq<GameId>, game_id: GameId) -> Seq<GameId> {
    if ids.contains(game_id) {
        ids.remove(ids.index_of(game_id))
    } else {
        ids
    }
}

/// List of open invites (game ids)
#[derive(Debug, PartialEq, Eq)]
pub struct OpenInvites {
    pub invites: Vec<GameId>,
}

impl View for OpenInvites {
    type V = Seq<GameId>;

    open spec fn view(&self) -> Seq<GameId> {
        self.invites@
    }
}

impl Clone for OpenInvites {
    fn clone(&self) -> (r: Self)
        ensures
            r@ == self@,
    {
        let mut invites: Vec<GameId> = Vec::new();
        let mut i: usize = 0;
        while i < self.invites.len()
            invariant
                i <= self.invites@.len(),
                invites@ == self.invites@.take(i as int),
            decreases self.invites@.len() - i,
        {
            invites.push(self.invites[i]);
            assert(self.invites@.take(i + 1) =~= self.invites@.take(i as int).push(
                self.invites@[i as int],
            ));
            i += 1;
        }
        OpenInvites { invites }
    }
}

impl OpenInvites {
    /// The ids are in strictly ascending order.
    pub open spec fn wf(&self) -> bool {
        ascending(self@)
    }

    /// Whether the ids are in strictly ascending order.
    pub fn is_ascending(&self) -> (r: bool)
        ensures
            r == self.wf(),
    {
        let n = self.invites.len();
        let mut i: usize = 1;
        while i < n
            invariant
                n == self.invites@.len(),
                1 <= i,
                i <= n || n == 0,
                forall|a: int, b: int|
                    0 <= a < b < i && b < n ==> self.invites@[a] < self.invites@[b],
            decreases n - i,
        {
            if self.invites[i - 1] >= self.invites[i] {
                return false;
            }
            i += 1;
        }
        true
    }

    /// The position of `game_id`, found by halving an ascending list.
    pub fn position(&self, game_id: GameId) -> (r: Option<usize>)
        requires
            self.wf(),
        ensures
            match r {
                Some(i) => i < self@.len() && self@[i as int] == game_id,
                None => !self@.contains(game_id),
            },
    {
        let mut low: usize = 0;
        let mut high: usize = self.invites.len();
        while low < high
            invariant
                self.wf(),
                low <= high <= self@.len(),
                forall|k: int| 0 <= k < low ==> self@[k] < game_id,
                forall|k: int| high <= k < self@.len() ==> self@[k] > game_id,
            decreases high - low,
        {
            let mid = low + (high - low) / 2;
            let probe = self.invites[mid];
            if probe == game_id {
                return Some(mid);
            } else if probe < game_id {
                low = mid + 1;
            } else {
                high = mid;
            }
        }
        None
    }

    /// Appends `game_id` at the end.
    pub fn push(&mut self, game_id: GameId)
        ensures
            final(self)@ == old(self)@.push(game_id),
    {
        self.invites.push(game_id);
    }

    /// Takes `game_id` out, leaving the other ids in their order; tells
    /// whether it was there.
    pub fn remove(&mut self, game_id: GameId) -> (found: bool)
        requires
            old(self).wf(),
        ensures
            found == old(self)@.contains(game_id),
            final(self)@ == without(old(self)@, game_id),
            final(self).wf(),
    {
        match self.position(game_id) {
            Some(index) => {
                self.invites.remove(index);
                true
            },
            None => false,
        }
    }
}

} // verus!
