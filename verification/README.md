# WinTag

WinTag puts tags on the windows of other programs: a badge in the corner of the
window, a note that appears when the pointer rests on the badge, and a panel that
lists all tags.

`src/` is the library. It holds what the program knows and decides, and Verus
proves that it does what its contracts say.

| Module    | What it holds                                                        |
|-----------|----------------------------------------------------------------------|
| `text`    | trimming, searching, comparing and cutting of texts                  |
| `common`  | messages of the program, UTF-16                                      |
| `hotkey`  | the hotkeys                                                          |
| `model`   | tags, the tag store, preferences and their file                      |
| `sys`     | badges, tooltips, the tray icon, events of other windows             |
| `ui`      | geometry, themes, and the windows as state machines                  |
| `session` | the program as a whole: from an event to a state and what is left to do |

`app/` is the program around it. It talks to Windows, to the file system and to
the user interface toolkit, and does what the library tells it to do.

`tests/` runs the library on concrete values.
