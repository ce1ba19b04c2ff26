use vstd::prelude::*;

use crate::board::{has_won, is_full, player_at, Grid, Player, PlayerId};
use crate::layout::CellRect;

verus! {

/// The line shown above the board.
#[derive(Clone, Copy, PartialEq, Eq, Structural, Debug)]
pub enum Message {
    /// Shown when a game starts: player 1 moves first.
    FirstTurn,
    /// The turn has passed to this player.
    Turn(PlayerId),
    /// A click fell on a cell that is already taken.
    CellUsed,
    /// This player holds a full line.
    Won(PlayerId),
    /// The board is full and nobody has won.
    Draw,
}

impl Message {
    pub open spec fn spec_text(self) -> Seq<char> {
        match self {
            Message::FirstTurn => "Player 1, it's your turn !"@,
            Message::Turn(PlayerId::Player1) => "Player 1, it's you're turn !"@,
            Message::Turn(PlayerId::Player2) => "Player 2, it's you're turn !"@,
            Message::CellUsed => "Cell already used !"@,
            Message::Won(PlayerId::Player1) => "Player 1 has won !"@,
            Message::Won(PlayerId::Player2) => "Player 2 has won !"@,
            Message::Draw => "Draw !"@,
        }
    }

    /// The text of the message, as it is rendered.
    pub fn text(&self) -> (s: &'static str)
        ensures
            s@ == self.spec_text(),
    {
        match self {
            Message::FirstTurn => "Player 1, it's your turn !",
            Message::Turn(PlayerId::Player1) => "Player 1, it's you're turn !",
            Message::Turn(PlayerId::Player2) => "Player 2, it's you're turn !",
            Message::CellUsed => "Cell already used !",
            Message::Won(PlayerId::Player1) => "Player 1 has won !",
            Message::Won(PlayerId::Player2) => "Player 2 has won !",
            Message::Draw => "Draw !",
        }
    }
}

/// What the players did, as far as the game's rules care.
#[derive(Clone, Copy, PartialEq, Eq, Structural, Debug)]
pub enum Event {
    /// The window was closed.
    Quit,
    /// The fullscreen key (F11).
    ToggleFullscreen,
    /// The restart key (space).
    Restart,
    /// The key that shows or hides the clickable area of each cell (F1).
    ToggleCollisionBoxes,
    /// The key that shows or hides the area where each symbol is drawn (F2).
    ToggleDrawingBoxes,
    /// A press of the left mouse button at `(x, y)`.
    LeftClick { x: i32, y: i32 },
}

/// What the window has to do after an event.
#[derive(Clone, Copy, PartialEq, Eq, Structural, Debug)]
pub enum Action {
    /// Nothing beyond redrawing.
    Continue,
    /// Stop the game loop.
    Quit,
    /// Switch the window's fullscreen mode.
    ToggleFullscreen,
}

/// The state of a game, as the rules see it.
#[verifier::ext_equal]
pub struct GameView {
    /// The nine cells, row by row.
    pub grid: Seq<Option<PlayerId>>,
    /// For each of the two players, whether it has placed a mark since its
    /// turn began.
    pub played: Seq<bool>,
    /// The position in the player table of the player whose turn it is.
    pub current: int,
    pub game_over: bool,
    pub message: Message,
    pub show_collision_boxes: bool,
    pub show_drawing_boxes: bool,
}

impl GameView {
    /// The state in which the program starts.
    pub open spec fn initial() -> GameView {
        GameView {
            grid: Seq::new(9, |i: int| None),
            played: seq![false, false],
            current: 0,
            game_over: false,
            message: Message::FirstTurn,
            show_collision_boxes: false,
            show_drawing_boxes: false,
        }
    }

    /// The player whose turn it is.
    pub open spec fn current_id(self) -> PlayerId {
        player_at(self.current)
    }

    /// The state after the restart key: a fresh board, player 1 to move with
    /// its `played` flag cleared, the game running again. Player 2's flag and
    /// the debugging displays are kept.
    pub open spec fn restarted(self) -> GameView {
        GameView {
            grid: Seq::new(9, |i: int| None),
            played: self.played.update(0, false),
            current: 0,
            game_over: false,
            message: Message::FirstTurn,
            ..self
        }
    }

    /// A click at `(x, y)` takes cell `i`: the game runs, the click falls in
    /// the cell's clickable area and the cell is free.
    pub open spec fn places_at(self, cells: Seq<CellRect>, x: i32, y: i32, i: int) -> bool {
        &&& !self.game_over
        &&& cells[i].spec_contains(x as int, y as int)
        &&& self.grid[i] is None
    }

    /// A click at `(x, y)` falls on cell `i`, which is already taken, while
    /// the game runs.
    pub open spec fn refuses_at(self, cells: Seq<CellRect>, x: i32, y: i32, i: int) -> bool {
        &&& !self.game_over
        &&& cells[i].spec_contains(x as int, y as int)
        &&& self.grid[i] is Some
    }

    /// The state after a left click at `(x, y)`, given the clickable area of
    /// each cell: each free cell hit takes the current player's mark and
    /// marks the player as having played; if a taken cell is hit, the
    /// message says so. Nothing happens once the game is over.
    pub open spec fn clicked(self, cells: Seq<CellRect>, x: i32, y: i32) -> GameView {
        GameView {
            grid: Seq::new(
                9,
                |i: int|
                    if self.places_at(cells, x, y, i) {
                        Some(self.current_id())
                    } else {
                        self.grid[i]
                    },
            ),
            played: if exists|i: int| 0 <= i < 9 && #[trigger] self.places_at(cells, x, y, i) {
                self.played.update(self.current, true)
            } else {
                self.played
            },
            message: if exists|i: int| 0 <= i < 9 && #[trigger] self.refuses_at(cells, x, y, i) {
                Message::CellUsed
            } else {
                self.message
            },
            ..self
        }
    }

    /// First step of a frame's update: if the current player holds a line,
    /// it has won and the game is over.
    pub open spec fn after_win_check(self) -> GameView {
        if has_won(self.grid, self.current_id()) {
            GameView { message: Message::Won(self.current_id()), game_over: true, ..self }
        } else {
            self
        }
    }

    /// Second step: a full board on which nobody holds a line is a draw.
    pub open spec fn after_draw_check(self) -> GameView {
        if !has_won(self.grid, PlayerId::Player1) && !has_won(self.grid, PlayerId::Player2)
            && is_full(self.grid) {
            GameView { message: Message::Draw, game_over: true, ..self }
        } else {
            self
        }
    }

    /// Third step: if the current player has played and the game runs, its
    /// flag is cleared and the turn passes to the other player.
    pub open spec fn after_turn_check(self) -> GameView {
        if self.played[self.current] && !self.game_over {
            GameView {
                played: self.played.update(self.current, false),
                current: 1 - self.current,
                message: Message::Turn(player_at(1 - self.current)),
                ..self
            }
        } else {
            self
        }
    }

    /// The state after the update that follows the events of a frame.
    pub open spec fn updated(self) -> GameView {
        self.after_win_check().after_draw_check().after_turn_check()
    }

    /// The state after one event.
    pub open spec fn stepped(self, event: Event, cells: Seq<CellRect>) -> GameView {
        match event {
            Event::Quit => self,
            Event::ToggleFullscreen => self,
            Event::Restart => self.restarted(),
            Event::ToggleCollisionBoxes => GameView {
                show_collision_boxes: !self.show_collision_boxes,
                ..self
            },
            Event::ToggleDrawingBoxes => GameView {
                show_drawing_boxes: !self.show_drawing_boxes,
                ..self
            },
            Event::LeftClick { x, y } => self.clicked(cells, x, y),
        }
    }
}

/// What the window has to do after `event`.
pub open spec fn action_of(event: Event) -> Action {
    match event {
        Event::Quit => Action::Quit,
        Event::ToggleFullscreen => Action::ToggleFullscreen,
        _ => Action::Continue,
    }
}

/// Testing a click at `(x, y)` against every cell computes no edge that
/// leaves the `i32` range.
pub open spec fn click_fits(cells: Seq<CellRect>, x: i32, y: i32) -> bool {
    forall|i: int| 0 <= i < 9 ==> (#[trigger] cells[i]).probe_fits(x as int, y as int)
}

/// Handling `event` computes no edge that leaves the `i32` range.
pub open spec fn event_fits(event: Event, cells: Seq<CellRect>) -> bool {
    match event {
        Event::LeftClick { x, y } => click_fits(cells, x, y),
        _ => true,
    }
}

/// A game in progress: the board, the two players, whose turn it is, whether
/// the game is over, the message above the board and the two debugging
/// displays.
#[derive(Clone, Copy)]
pub struct Game {
    pub grid: Grid,
    pub players: [Player; 2],
    pub current_player: usize,
    pub game_over: bool,
    pub message: Message,
    pub display_collision_boxes: bool,
    pub display_drawing_boxes: bool,
}

impl View for Game {
    type V = GameView;

    open spec fn view(&self) -> GameView {
        GameView {
            grid: self.grid@,
            played: seq![self.players[0].played, self.players[1].played],
            current: self.current_player as int,
            game_over: self.game_over,
            message: self.message,
            show_collision_boxes: self.display_collision_boxes,
            show_drawing_boxes: self.display_drawing_boxes,
        }
    }
}

impl Game {
    /// Player 1 sits at position 0 of the player table, player 2 at position
    /// 1, and the current player is one of them.
    pub open spec fn wf(&self) -> bool {
        &&& self.current_player < 2
        &&& self.players[0].id == PlayerId::Player1
        &&& self.players[1].id == PlayerId::Player2
    }

    /// The game as the program starts it.
    pub fn new() -> (g: Game)
        ensures
            g.wf(),
            g@ == GameView::initial(),
    {
        let g = Game {
            grid: Grid::new(),
            players: [Player::new(PlayerId::Player1), Player::new(PlayerId::Player2)],
            current_player: PlayerId::Player1.index(),
            game_over: false,
            message: Message::FirstTurn,
            display_collision_boxes: false,
            display_drawing_boxes: false,
        };
        assert(g@.grid =~= GameView::initial().grid);
        g
    }

    /// The player whose turn it is.
    pub fn current_id(&self) -> (p: PlayerId)
        requires
            self.wf(),
        ensures
            p == self@.current_id(),
    {
        self.players[self.current_player].id
    }

    /// The restart key: a fresh board and player 1 to move.
    pub fn restart(&mut self)
        requires
            old(self).wf(),
        ensures
            final(self).wf(),
            final(self)@ == old(self)@.restarted(),
    {
        self.grid = Grid::new();
        self.current_player = PlayerId::Player1.index();
        let mut p = self.players[self.current_player];
        p.played = false;
        self.players[self.current_player] = p;
        self.message = Message::FirstTurn;
        self.game_over = false;
        assert(self@.grid =~= old(self)@.restarted().grid);
        assert(self@.played =~= old(self)@.restarted().played);
    }

    /// A left click at `(x, y)`, given the clickable area of each cell.
    pub fn click(&mut self, cells: &[CellRect; 9], x: i32, y: i32)
        requires
            old(self).wf(),
            click_fits(cells@, x, y),
        ensures
            final(self).wf(),
            final(self)@ == old(self)@.clicked(cells@, x, y),
    {
        let ghost s0 = self@;
        let mut i: usize = 0;
        while i < 9
            invariant
                i <= 9,
                self.wf(),
                click_fits(cells@, x, y),
                self.current_player == s0.current,
                self.game_over == s0.game_over,
                self.display_collision_boxes == s0.show_collision_boxes,
                self.display_drawing_boxes == s0.show_drawing_boxes,
                s0.grid.len() == 9,
                s0.played.len() == 2,
                forall|j: int|
                    0 <= j < 9 ==> #[trigger] self@.grid[j] == if j < i && s0.places_at(
                        cells@,
                        x,
                        y,
                        j,
                    ) {
                        Some(s0.current_id())
                    } else {
                        s0.grid[j]
                    },
                self@.played == if exists|j: int|
                    0 <= j < i && #[trigger] s0.places_at(cells@, x, y, j) {
                    s0.played.update(s0.current, true)
                } else {
                    s0.played
                },
                self.message == if exists|j: int|
                    0 <= j < i && #[trigger] s0.refuses_at(cells@, x, y, j) {
                    Message::CellUsed
                } else {
                    s0.message
                },
            decreases 9 - i,
        {
            assert(cells@[i as int].probe_fits(x as int, y as int));
            assert(self@.grid[i as int] == s0.grid[i as int]);
            if cells[i].contains(x, y) {
                if !self.game_over {
                    if self.grid.grid[i].is_none() {
                        assert(s0.places_at(cells@, x, y, i as int));
                        let cur = self.current_player;
                        self.grid.grid[i] = Some(self.players[cur].id);
                        let mut p = self.players[cur];
                        p.played = true;
                        self.players[cur] = p;
                        assert(self@.played =~= s0.played.update(s0.current, true));
                    } else {
                        assert(s0.refuses_at(cells@, x, y, i as int));
                        self.message = Message::CellUsed;
                    }
                }
            }
            assert(forall|j: int| 0 <= j < 9 ==> #[trigger] self@.grid[j] == if j < i + 1 && s0.places_at(cells@, x, y, j) {
                Some(s0.current_id())
            } else {
                s0.grid[j]
            });
            i = i + 1;
        }
        assert(self@.grid =~= s0.clicked(cells@, x, y).grid);
    }

    /// The update that follows the events of a frame: a win, then a draw,
    /// then the passing of the turn.
    pub fn update(&mut self)
        requires
            old(self).wf(),
        ensures
            final(self).wf(),
            final(self)@ == old(self)@.updated(),
    {
        let ghost s0 = self@;
        let cur = self.current_player;
        if self.players[cur].has_won(&self.grid) {
            self.message = Message::Won(self.players[cur].id);
            self.game_over = true;
        }
        assert(self@ == s0.after_win_check());
        if !self.players[PlayerId::Player1.index()].has_won(&self.grid)
            && !self.players[PlayerId::Player2.index()].has_won(&self.grid)
            && self.grid.is_full() {
            self.message = Message::Draw;
            self.game_over = true;
        }
        assert(self@ == s0.after_win_check().after_draw_check());
        let ghost s2 = self@;
        if self.players[self.current_player].played && !self.game_over {
            let cur = self.current_player;
            let mut p = self.players[cur];
            p.played = false;
            self.players[cur] = p;
            self.current_player = match self.players[cur].id {
                PlayerId::Player1 => PlayerId::Player2.index(),
                PlayerId::Player2 => PlayerId::Player1.index(),
            };
            self.message = Message::Turn(self.players[self.current_player].id);
            assert(self@.played =~= s2.played.update(s2.current, false));
        }
    }

    /// One event: changes the state as `GameView::stepped` says and tells the
    /// window what else to do.
    pub fn handle_event(&mut self, event: Event, cells: &[CellRect; 9]) -> (a: Action)
        requires
            old(self).wf(),
            event_fits(event, cells@),
        ensures
            final(self).wf(),
            final(self)@ == old(self)@.stepped(event, cells@),
            a == action_of(event),
    {
        match event {
            Event::Quit => Action::Quit,
            Event::ToggleFullscreen => Action::ToggleFullscreen,
            Event::Restart => {
                self.restart();
                Action::Continue
            },
            Event::ToggleCollisionBoxes => {
                self.display_collision_boxes = if self.display_collision_boxes {
                    false
                } else {
                    true
                };
                Action::Continue
            },
            Event::ToggleDrawingBoxes => {
                self.display_drawing_boxes = if self.display_drawing_boxes {
                    false
                } else {
                    true
                };
                Action::Continue
            },
            Event::LeftClick { x, y } => {
                self.click(cells, x, y);
                Action::Continue
            },
        }
    }
}

} // verus!
