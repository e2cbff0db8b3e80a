# sshub

The logic of an SSH launcher with a terminal interface, verified with Verus.

- `src/text.rs`: the string operations that the contracts are stated over.
- `src/session_log.rs`, `src/session_log/`: names, directories, rotation and retention of
  session transcripts, and the `script` command that records one.
- `src/command_path.rs`: whether a program can be run.
- `src/config.rs`, `src/config/`: settings, where they live, how the directory of an older
  release is taken over, and how settings are written back into a file without losing what
  its owner wrote there.
- `src/model.rs`: hosts as they are listed, and changes to them.
- `src/cli/`: the `host` commands, from their arguments to their end.
- `src/app.rs`, `src/app/`: connecting to a host inside the program.
- `src/session/`: a child on a pseudo-terminal.
- `src/tui/`: the layout of the screen, its popups and its footer, and the cells that move.
- `app/`: the environment, files, processes, terminals and widgets around the library.

Commands and connections are written as steps. A step takes what was waited for and what
came of it, and gives what is waited for next and the outside work to do; the program in
`app/` does that work and reports back. What the contracts believe of other crates stands
next to the calls: `toml_edit` in `src/config/merge.rs`, `portable-pty` in
`src/session/pty.rs`, `ratatui` in `src/tui/buffer.rs` and `src/tui/marks.rs`, and three
operations of `std` strings in `src/text.rs`.
