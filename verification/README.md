# archinstall-rs

An installer for Arch-based systems, driven from a terminal user interface.
The decisions of the installer live in a library whose behaviour is stated
in `requires`/`ensures` contracts and proved with Verus; a thin terminal
front end reads the machine, draws the library's views and runs the plans
that the library builds.

## Layout

- `src/` — the verified library
  - `state.rs`: the installer state, its initial values, the install log
  - `popups.rs`: opening popups, searching them, applying a choice
  - `space.rs`: what the space bar toggles in each list popup
  - `screens.rs`: keys on the Bootloader and Experience Mode screens
  - `partitioning.rs`, `system.rs`, `sysconfig.rs`, `usersetup.rs`: the
    command plans of an installation (partitioning, repositories and
    `pacstrap`, system configuration, user accounts)
  - `views.rs`: the text of the panes that the front end draws, and the
    disk listing that `lsblk` prints
  - `options.rs`: the keyboard, locale and mirror lists read from the live
    system's listings, and what `pacman` says of packages
  - `catalog.rs`: the fixed lists (desktop packages, drivers, login managers)
  - `sets.rs`, `text.rs`, `commands.rs`, `types.rs`: ordered sets and maps
    of texts, text functions, command building blocks (with how the shell
    reads their quoting back), plain data types
- `app/` — the terminal front end (ratatui), `/proc`, `lsblk`, `pacman`,
  `localectl`, `reflector` and the shell that runs the plans
- `tests/` — tests of the library on concrete states
