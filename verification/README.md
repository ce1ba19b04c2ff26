# tictactoe

A two-player tic-tac-toe game. The rules live in a library verified with
Verus (`src/`):

- `board`: players, the 3x3 grid, the eight winning lines, `has_won` and
  `is_full`;
- `layout`: the clickable area of a cell in whole pixels and the hit test on
  it, and the fullscreen switch;
- `game`: the game's state, the events it reacts to (clicks, restart, the
  debugging displays, fullscreen, quit), the update that follows each frame
  (win, draw, passing the turn) and the message shown above the board, each
  specified over `GameView`;
- `laws`: properties proved of those specifications.

`app/main.rs` is the SDL2 window: it loads the images and the font, places
the board and its cells on screen (floating point), turns SDL2 events into
`game::Event`s and draws the state.
