# player_core

The playback logic of the ReAmped music player, written in Verus and proved
against its contracts.

- `src/` is the verified library. `engine` is the centre: a state machine
  that takes commands (play, pause, next, sort, ...) and observations from
  the audio thread (a crossfade trigger point, a finished fade, a finished
  track) and returns the effects the host carries out. `engine_laws` states
  and proves what holds across its operations. The other modules hold the
  rules around it: key bindings, the tray menu and the media-player
  interface, library scanning and caching, file paths compared as the
  standard library compares them on Unix, the mini-playlist search, the
  settings window's rules, hardware output devices and sample containers,
  where the wallpaper is looked for, and palette hashing.
- `app/` is the unverified host: configuration and cache files, tag
  reading, folder walking, the file and process access of the wallpaper
  lookup, the audio thread that drives the engine, and the floating-point
  audio arithmetic.
- `tests/` runs the library on concrete values.
