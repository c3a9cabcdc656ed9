# adventure

A small text adventure. A character wakes up on a ten-by-ten grid of plots,
walks around picking up money, fights bureaucrats for their savings, may
train with a personal trainer, and wins by catching a taxi out.

## Layout

- `src/` is the game logic, written in Verus and verified:
  - `text.rs`: decimal numbers, splitting and comparing words, lower-casing;
  - `chance.rs`: the random draws the game makes;
  - `creatures.rs`: the character, bureaucrats, trainers and taxi drivers;
  - `geography.rs`: the land, its plots, and how it is laid out from draws;
  - `commands.rs`: reading commands and what each one does;
  - `adventure.rs`: the game as a machine from typed input to shown lines;
  - `intro.rs`: the talk that makes a character;
  - `logger.rs`: the logging level.
- `app/` is the terminal program around it: arguments, the prompt, reading
  the level files and installing the logger.
- `tests/` runs the library on concrete games.

The main properties proved: every turn keeps the total money of the game
(the character's plus the land's), a step that stays on the land can be
walked back, repeating a command leaves the history as it was, and a freshly
laid-out land lists exactly where its enemies and its taxi stand.
