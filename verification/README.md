# rakukan-tsf

The logic of a Japanese text service for Windows, written in Verus: what a key does
to the text being composed, which candidates are shown, which input mode a document
has, when the conversion engine is started and restarted, how settings are read, and
where windows stand on the screen. Every function states what it does, and all but
one are proved to do it: `json_object` in `ai.rs`, which calls `serde_json`, is taken
on trust. So is what `text.rs` states of `String::push`, `String::pop` and
`char::from_u32`.

- `src/` is the library. It talks to nothing: functions take what is known, change
  the state that they are given, and say what is to be done.
  - `session*.rs`, `steps.rs`, `edit_ops.rs`, `dispatch.rs`, `action.rs`: from a key to
    the session and the steps that follow.
  - `direct_modes.rs`, `reconversion.rs`, `ai*.rs`, `wrap.rs`: optional modes, converting
    text anew, and editing with an AI.
  - `doc_mode.rs`, `ime_mode.rs`, `ime_sync.rs`, `service.rs`: input modes and the life
    of the service.
  - `engine_slot.rs`, `engine_config.rs`, `readiness.rs`, `live.rs`, `learning.rs`,
    `pending_keys.rs`, `composition.rs`: the engine and the composition.
  - `config*.rs`: settings.
  - `icon.rs`, `mode_indicator.rs`, `language_bar.rs`, `display_attr.rs`, `theme.rs`,
    `tray_ipc.rs`, `status_menu.rs`, `settings_launcher.rs`, `rect.rs`: what is shown.
  - `text.rs`, `wide.rs`, `paging.rs`: text and arithmetic underneath.
- `tests/` runs the library on concrete values.
- `app/` is the part that talks to Windows, to files and to other processes. What the
  service needs of its surroundings (the engine, the romaji converter, the candidate
  window) is named in `app/host.rs`.

Public proof functions state what holds of several functions together, for example
that the three parts of a row of blocks always join to its whole text
(`session_blocks::block_parts_join_to_full_text`), that a preview which was not seen is
never committed (`dispatch::unseen_previews_are_never_committed`), or that a document
gets its mode back with the focus (`doc_mode::mode_returns_with_the_focus`).
