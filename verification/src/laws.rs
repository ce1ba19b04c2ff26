use vstd::prelude::*;

use crate::board::{has_won, is_empty, is_full, owns_line, player_at, PlayerId};
use crate::game::{action_of, Action, Event, GameView, Message};
use crate::layout::{CellRect, FullscreenMode};

verus! {

/// A state whose board has nine cells, whose player table has two entries
/// and whose current player is one of them: every state a `Game` can be in.
pub open spec fn well_shaped(s: GameView) -> bool {
    &&& s.grid.len() == 9
    &&& s.played.len() == 2
    &&& 0 <= s.current < 2
}

/// A click never erases or changes a mark: every cell that was taken keeps
/// its mark, and every cell that changes receives the mark of the player
/// whose turn it is.
pub proof fn lemma_click_only_fills_free_cells(s: GameView, cells: Seq<CellRect>, x: i32, y: i32)
    requires
        well_shaped(s),
    ensures
        forall|i: int|
            0 <= i < 9 && s.grid[i] is Some ==> #[trigger] s.clicked(cells, x, y).grid[i]
                == s.grid[i],
        forall|i: int|
            0 <= i < 9 && s.clicked(cells, x, y).grid[i] != s.grid[i] ==> #[trigger] s.clicked(
                cells,
                x,
                y,
            ).grid[i] == Some(s.current_id()),
        s.clicked(cells, x, y).current == s.current,
        well_shaped(s.clicked(cells, x, y)),
{
}

/// Once the game is over, clicks change nothing at all.
pub proof fn lemma_clicks_ignored_when_over(s: GameView, cells: Seq<CellRect>, x: i32, y: i32)
    requires
        well_shaped(s),
        s.game_over,
    ensures
        s.clicked(cells, x, y) == s,
{
    assert(s.clicked(cells, x, y).grid =~= s.grid);
}

/// The update that follows a frame's events never changes the board.
pub proof fn lemma_update_keeps_board(s: GameView)
    requires
        well_shaped(s),
    ensures
        s.updated().grid == s.grid,
        well_shaped(s.updated()),
{
}

/// Only the restart key ends a finished game: no other event and no update
/// clears `game_over`, and none of them changes the board of a finished
/// game.
pub proof fn lemma_game_over_kept_until_restart(s: GameView, event: Event, cells: Seq<CellRect>)
    requires
        well_shaped(s),
        s.game_over,
        event != Event::Restart,
    ensures
        s.stepped(event, cells).game_over,
        s.stepped(event, cells).grid == s.grid,
        s.updated().game_over,
        s.updated().grid == s.grid,
{
    if let Event::LeftClick { x, y } = event {
        lemma_clicks_ignored_when_over(s, cells, x, y);
    }
}

/// If the player whose turn it is holds a full line, the update declares it
/// the winner, ends the game and keeps the turn where it is.
pub proof fn lemma_win_ends_game(s: GameView)
    requires
        well_shaped(s),
        has_won(s.grid, s.current_id()),
    ensures
        s.updated().game_over,
        s.updated().message == Message::Won(s.current_id()),
        s.updated().current == s.current,
{
}

/// A full board on which neither player holds a line is declared a draw and
/// ends the game.
pub proof fn lemma_full_board_without_winner_is_draw(s: GameView)
    requires
        well_shaped(s),
        is_full(s.grid),
        !has_won(s.grid, PlayerId::Player1),
        !has_won(s.grid, PlayerId::Player2),
    ensures
        s.updated().game_over,
        s.updated().message == Message::Draw,
        s.updated().current == s.current,
{
}

/// The turn passes exactly when the current player has played and the game
/// is still running after the win and draw checks; then the other player
/// moves next, its turn is announced and the `played` flag of the player
/// who just moved is cleared.
pub proof fn lemma_turn_passes(s: GameView)
    requires
        well_shaped(s),
    ensures
        (s.updated().current != s.current) <==> (s.played[s.current]
            && !s.after_win_check().after_draw_check().game_over),
        s.updated().current != s.current ==> {
            &&& s.updated().current == 1 - s.current
            &&& s.updated().message == Message::Turn(player_at(1 - s.current))
            &&& !s.updated().played[s.current]
            &&& !s.updated().game_over
        },
{
}

/// A running game in which nobody holds a line and the board is not full
/// goes on after the update.
pub proof fn lemma_game_goes_on(s: GameView)
    requires
        well_shaped(s),
        !s.game_over,
        !has_won(s.grid, PlayerId::Player1),
        !has_won(s.grid, PlayerId::Player2),
        !is_full(s.grid),
    ensures
        !s.updated().game_over,
{
}

/// The restart key always gives a running game on an empty board with
/// player 1 to move, whatever state it is pressed in; restarting the
/// initial state gives the initial state back.
pub proof fn lemma_restart_starts_afresh(s: GameView)
    requires
        well_shaped(s),
    ensures
        is_empty(s.restarted().grid),
        !is_full(s.restarted().grid),
        !has_won(s.restarted().grid, PlayerId::Player1),
        !has_won(s.restarted().grid, PlayerId::Player2),
        s.restarted().current == 0,
        !s.restarted().game_over,
        !s.restarted().played[0],
        s.restarted().message == Message::FirstTurn,
        well_shaped(s.restarted()),
        GameView::initial().restarted() == GameView::initial(),
{
    let g = s.restarted().grid;
    assert(g[0] is None);
    assert(!has_won(g, PlayerId::Player1));
    assert(!has_won(g, PlayerId::Player2));
    assert(GameView::initial().restarted().played =~= GameView::initial().played);
    assert(GameView::initial().restarted().grid =~= GameView::initial().grid);
}


/// The point `(px, py)` lies in `r`, borders included, written out in
/// integer arithmetic.
pub open spec fn point_in(r: CellRect, px: int, py: int) -> bool {
    r.x <= px && px <= r.x + r.w && r.y <= py && py <= r.y + r.h
}

/// A player has won exactly when it holds all three cells of one of the
/// three rows, three columns or two diagonals, whatever the other cells hold
/// (on a full board too).
pub proof fn law_has_won_iff_holds_a_line(g: Seq<Option<PlayerId>>, p: PlayerId)
    requires
        g.len() == 9,
    ensures
        has_won(g, p) <==> {
            ||| (g[0] == Some(p) && g[1] == Some(p) && g[2] == Some(p))
            ||| (g[3] == Some(p) && g[4] == Some(p) && g[5] == Some(p))
            ||| (g[6] == Some(p) && g[7] == Some(p) && g[8] == Some(p))
            ||| (g[0] == Some(p) && g[3] == Some(p) && g[6] == Some(p))
            ||| (g[1] == Some(p) && g[4] == Some(p) && g[7] == Some(p))
            ||| (g[2] == Some(p) && g[5] == Some(p) && g[8] == Some(p))
            ||| (g[0] == Some(p) && g[4] == Some(p) && g[8] == Some(p))
            ||| (g[2] == Some(p) && g[4] == Some(p) && g[6] == Some(p))
        },
{
    assert(owns_line(g, p, 0) == (g[0] == Some(p) && g[1] == Some(p) && g[2] == Some(p)));
    assert(owns_line(g, p, 1) == (g[3] == Some(p) && g[4] == Some(p) && g[5] == Some(p)));
    assert(owns_line(g, p, 2) == (g[6] == Some(p) && g[7] == Some(p) && g[8] == Some(p)));
    assert(owns_line(g, p, 3) == (g[0] == Some(p) && g[3] == Some(p) && g[6] == Some(p)));
    assert(owns_line(g, p, 4) == (g[1] == Some(p) && g[4] == Some(p) && g[7] == Some(p)));
    assert(owns_line(g, p, 5) == (g[2] == Some(p) && g[5] == Some(p) && g[8] == Some(p)));
    assert(owns_line(g, p, 6) == (g[0] == Some(p) && g[4] == Some(p) && g[8] == Some(p)));
    assert(owns_line(g, p, 7) == (g[2] == Some(p) && g[4] == Some(p) && g[6] == Some(p)));
}

/// The board is full exactly when no cell is free.
pub proof fn law_full_iff_no_free_cell(g: Seq<Option<PlayerId>>)
    requires
        g.len() == 9,
    ensures
        is_full(g) <==> !(exists|i: int| 0 <= i < 9 && (#[trigger] g[i]) is None),
{
}

/// The hit test of a cell holds exactly on the points between its left and
/// right edges and between its top and bottom edges, borders included.
pub proof fn law_contains_iff_between_edges(r: CellRect, px: int, py: int)
    ensures
        r.spec_contains(px, py) <==> (r.x <= px && px <= r.x + r.w && r.y <= py && py <= r.y
            + r.h),
{
}

/// A click during a running game that hits at least one cell, all of whose
/// hit cells are taken, changes neither the board nor the `played` flags nor
/// the turn, and answers with "Cell already used !".
pub proof fn law_click_on_taken_cells_is_refused(s: GameView, cells: Seq<CellRect>, x: i32, y: i32)
    requires
        well_shaped(s),
        cells.len() == 9,
        !s.game_over,
        exists|i: int| 0 <= i < 9 && point_in(#[trigger] cells[i], x as int, y as int),
        forall|i: int|
            0 <= i < 9 && point_in(#[trigger] cells[i], x as int, y as int) ==> s.grid[i] is Some,
    ensures
        s.clicked(cells, x, y).grid == s.grid,
        s.clicked(cells, x, y).played == s.played,
        s.clicked(cells, x, y).current == s.current,
        s.clicked(cells, x, y).message == Message::CellUsed,
{
    let i = choose|i: int| 0 <= i < 9 && point_in(#[trigger] cells[i], x as int, y as int);
    assert(s.refuses_at(cells, x, y, i));
    assert forall|j: int| 0 <= j < 9 implies !#[trigger] s.places_at(cells, x, y, j) by {
        if point_in(cells[j], x as int, y as int) {
        }
    }
    assert(s.clicked(cells, x, y).grid =~= s.grid);
}

/// A click marks the current player as having played, and gives it a new
/// mark, exactly when the game runs and the click hits a free cell; the
/// other player's flag never changes, and every free cell hit gets the
/// current player's mark.
pub proof fn law_click_plays_iff_free_cell_hit(s: GameView, cells: Seq<CellRect>, x: i32, y: i32)
    requires
        well_shaped(s),
        cells.len() == 9,
    ensures
        s.clicked(cells, x, y).played[s.current] == (s.played[s.current] || (!s.game_over
            && exists|i: int|
            0 <= i < 9 && point_in(#[trigger] cells[i], x as int, y as int) && s.grid[i] is None)),
        s.clicked(cells, x, y).played[1 - s.current] == s.played[1 - s.current],
        s.clicked(cells, x, y).played.len() == 2,
        forall|i: int|
            0 <= i < 9 && !s.game_over && point_in(#[trigger] cells[i], x as int, y as int)
                && s.grid[i] is None ==> s.clicked(cells, x, y).grid[i] == Some(
                player_at(s.current),
            ),
        forall|i: int|
            0 <= i < 9 && !point_in(#[trigger] cells[i], x as int, y as int) ==> s.clicked(
                cells,
                x,
                y,
            ).grid[i] == s.grid[i],
{
    if !s.game_over && exists|i: int|
        0 <= i < 9 && point_in(#[trigger] cells[i], x as int, y as int) && s.grid[i] is None {
        let i = choose|i: int|
            0 <= i < 9 && point_in(#[trigger] cells[i], x as int, y as int) && s.grid[i] is None;
        assert(s.places_at(cells, x, y, i));
    }
    if exists|i: int| 0 <= i < 9 && #[trigger] s.places_at(cells, x, y, i) {
        let i = choose|i: int| 0 <= i < 9 && #[trigger] s.places_at(cells, x, y, i);
        assert(point_in(cells[i], x as int, y as int));
    }
}

/// Only the window-close event asks to quit and only the fullscreen key asks
/// to switch the fullscreen mode; every other event lets the game run on.
pub proof fn law_actions_of_events(event: Event)
    ensures
        (action_of(event) == Action::Quit) <==> (event == Event::Quit),
        (action_of(event) == Action::ToggleFullscreen) <==> (event == Event::ToggleFullscreen),
        (event != Event::Quit && event != Event::ToggleFullscreen) ==> action_of(event)
            == Action::Continue,
{
}

/// The debugging keys flip exactly their own display and change nothing
/// else; the quit and fullscreen events change nothing.
pub proof fn law_debug_keys_flip_only_their_display(s: GameView, cells: Seq<CellRect>)
    ensures
        s.stepped(Event::ToggleCollisionBoxes, cells) == (GameView {
            show_collision_boxes: !s.show_collision_boxes,
            ..s
        }),
        s.stepped(Event::ToggleDrawingBoxes, cells) == (GameView {
            show_drawing_boxes: !s.show_drawing_boxes,
            ..s
        }),
        s.stepped(Event::Quit, cells) == s,
        s.stepped(Event::ToggleFullscreen, cells) == s,
{
}

/// An update in which the current player holds no line, the board is not a
/// draw (full without any line) and the turn does not pass (the current
/// player has not played, or the game is over) changes nothing: in
/// particular the message stays as it was.
pub proof fn law_quiet_update_changes_nothing(s: GameView)
    requires
        well_shaped(s),
        !has_won(s.grid, player_at(s.current)),
        !(is_full(s.grid) && !has_won(s.grid, PlayerId::Player1) && !has_won(
            s.grid,
            PlayerId::Player2,
        )),
        !s.played[s.current] || s.game_over,
    ensures
        s.updated() == s,
{
}

/// A message that announces a turn always names the player whose turn it is:
/// if that holds before an update or an event, it holds after it.
pub proof fn law_turn_message_names_current_player(s: GameView, event: Event, cells: Seq<CellRect>)
    requires
        well_shaped(s),
        s.message matches Message::Turn(p) ==> p == player_at(s.current),
    ensures
        s.updated().message matches Message::Turn(p) ==> p == player_at(s.updated().current),
        s.stepped(event, cells).message matches Message::Turn(p) ==> p == player_at(
            s.stepped(event, cells).current,
        ),
{
}

/// The digit by which the players know `p`.
pub open spec fn digit(p: PlayerId) -> char {
    match p {
        PlayerId::Player1 => '1',
        PlayerId::Player2 => '2',
    }
}

/// The texts that announce a turn or a win name the player by its number,
/// inside the same words for both players.
pub proof fn law_texts_name_the_player(p: PlayerId)
    ensures
        Message::Turn(p).spec_text() =~= "Player "@ + seq![digit(p)] + ", it's you're turn !"@,
        Message::Won(p).spec_text() =~= "Player "@ + seq![digit(p)] + " has won !"@,
        Message::FirstTurn.spec_text() =~= "Player "@ + seq![digit(PlayerId::Player1)]
            + ", it's your turn !"@,
{
    reveal_strlit("Player ");
    reveal_strlit(", it's you're turn !");
    reveal_strlit(", it's your turn !");
    reveal_strlit(" has won !");
    reveal_strlit("Player 1, it's your turn !");
    reveal_strlit("Player 1, it's you're turn !");
    reveal_strlit("Player 2, it's you're turn !");
    reveal_strlit("Player 1 has won !");
    reveal_strlit("Player 2 has won !");
}

/// The fullscreen key takes a windowed window to fullscreen and any
/// fullscreen window back to a window; pressing it twice from a window
/// comes back to a window.
pub proof fn law_fullscreen_key(m: FullscreenMode)
    ensures
        (m.spec_toggled() == FullscreenMode::Off) <==> (m != FullscreenMode::Off),
        m.spec_toggled() != FullscreenMode::True,
        FullscreenMode::Off.spec_toggled().spec_toggled() == FullscreenMode::Off,
{
}

/// Each player sits at its own position of the player table.
pub proof fn law_player_positions(p: PlayerId)
    ensures
        player_at(p.spec_index()) == p,
        0 <= p.spec_index() < 2,
{
}

} // verus!
