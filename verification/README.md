# chessatiel

The verified core of a chess engine that plays on Lichess and speaks UCI.

`src/` is checked by Verus. It holds:

- `uci_text`, `beak`, `uci`: the two UCI command languages the engine reads,
  each parser specified by a grammar over the characters of a line, and the
  text of the commands it writes.
- `engine_manager`, `uci::engine_manager`: what the UCI front ends do with
  each command and each report of a search.
- `chess`: moves, squares, pieces and material, as the engine's logic reads
  them.
- `brain`: the search's scores, evaluators, transposition table, move
  ordering, repetition detection, counters, time limits and the decisions
  taken at each node of the alpha-beta search.
- `engine`: scores with mate distances, a depth-preferring transposition
  table and the decisions of a negamax search.
- `lichess`: the bot's events, its rules for challenges and games, and the
  addresses of the API it calls.
- `neural_networks`: fixed-size integer vectors and matrices.
- `profiling`: the fixed workloads used to time the engine.

`app/` is the bot itself: HTTP, JSON, logging and threads around the
library, and the line reader and writer of the UCI front end. Positions and move generation come from the board crate `guts`,
which is not part of this repository.

`tests/` runs the library on concrete cases.
