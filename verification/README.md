# Rusty-Craft

A terminal launcher for Minecraft: log in, pick a game version (and a mod
loader), install it and launch it.

- `src/` is the library, verified with Verus: the version manifests and
  their inheritance, the launch rules and arguments, what installing a
  version downloads and reports, the mod loader profiles, the order of the
  version table, and the state of each tab of the interface.
- `app/` is the program around it: reading and writing files, downloads,
  the login request, the terminal interface and the game process.
- `tests/` runs the library on concrete values.
