# elevator_simulator

A first-person elevator game built on Bevy and Avian physics, split in two.

- `src/` is the verified library (Verus). It holds the rules of the game as
  plain state machines with contracts:
  - `moveable`: the elevator's state machine (rest, move forward, move
    backward; where it was last seen; what it did before), what one physics
    step asks of the engine, and laws about resuming, arriving and round trips;
  - `interactable`: which buttons send a call when the interaction key is pressed;
  - `cursor`: grabbing and releasing the mouse cursor;
  - `ui`: what the main menu buttons show and where they lead;
  - `app_state`: the stages of the game.
- `app/` is the game itself: the Bevy plugins and systems, which measure
  distances and move bodies in floating point and hand the library booleans
  and entity ids.
- `tests/` runs the library on concrete values.
