# ac_internal

An in-process helper for AssaultCube (aim assistance and an ESP overlay),
split into a verified library and a thin unverified shell.

* `src/` — the library, verified with Verus:
  * `agent_utils.rs` — the player and entity data the decisions read; the
    trackable-target test and the closest-target choice for navigation.
  * `aimbot_utils.rs` — combat readiness, the target test, and the choice of
    the player to aim at.
  * `esp.rs` — ESP classes, which players and entities get which mark and
    colour, and the OpenGL calls around 2D drawing.
  * `gl_state.rs` — a model of the fixed-function state those calls touch,
    with the proofs that drawing works in screen space and restores the state.
  * `elf.rs` — goblin's ELF symbol and string tables, as trusted accessors.
  * `hooks.rs` — symbol lookup and the game addresses, the swap-window hook
    arithmetic, unhooking, and the choice of the main program's base address.
  * `selection.rs` — the first minimum among selected positions.
  * `laws.rs` — properties relating the decisions to one another.
* `app/` — the shell loaded into the game: memory layouts, raw pointers,
  floating-point geometry, OpenGL and dynamic-loader calls. It hands plain
  values to the library and carries out what comes back.
* `tests/` — tests of the library on concrete values, including ELF images
  built in memory.
