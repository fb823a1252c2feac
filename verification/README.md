# HashQuest

HashQuest is an idle game about mining crypto coins in the browser. This
crate holds the game's rules as a library verified with Verus, and a thin
browser program around it.

## Layout

- `src/` — the verified library (`hash_quest`):
  - `game_time` — the in-game clock and its seasons;
  - `slots`, `mining_rig`, `upgrades` — the rig, its slots, upgrade prices,
    slot limits, automatic power refills and rug-pull protection;
  - `selection` — the coins picked for mining and the places they occupy;
  - `market` — coin names and numbers, lookups, the chart window, trend
    memory, share cooldowns, coin ages and the tables new coins are drawn from;
  - `galaxy` — the cloud host's messages, the answer queue and save slots;
  - `resume` — which saved game is resumed when the game starts;
  - `schedule` — the decisions of the game and save loops;
  - `ui_state` — pausing, dialogs, the paint palette and its undo stack;
  - `text` — number formatting and the console.
- `tests/` — tests of the library's public functions.
- `app/` — the browser program: storage in IndexedDB, messages to the host
  page, the console and progress bars, and the parts of the economy that
  are kept as floating-point numbers (prices, balances, power, the NFT
  studio and painting scores).
