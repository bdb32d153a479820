# air_combat

The rules of a small side-scrolling shooter built on the Godot engine,
verified with Verus.

- `src/` holds the rules: the session counters (`game_state`), their on-screen
  labels (`text`), collision layers (`layers`), and the behaviour of bullets,
  enemies, the player's plane, the game scene and the title screen. Each
  public function states its effect in its contract; the laws that span
  several calls (counters count events, a reset forgets the session, the
  plane's climb rate stays bounded, only a running stage can be finished,
  rendered numbers read back) are proof functions beside the code they
  concern.
- `app/` holds the Godot classes (through `gdnative`): they find nodes, load
  scenes, move sprites by fractional amounts, read input and run timers, and
  ask the rules what to do.
- `tests/` runs the rules on concrete values.
