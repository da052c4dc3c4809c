# pf_client_core

The decisions of a game-streaming client: which decoder a session runs on and when it gives
way, what is asked of the host after a loss, how controllers are forwarded, how a link becomes
a connect, and what a session tells the program that started it.

`src/` is the library. Every item is verified by Verus: the functions carry contracts over
plain values, and the public proof functions state what holds of the library as a whole.
Nothing in it waits, reads or writes. It is told what happened and answers what to do.

| Modules | What they decide |
| --- | --- |
| `session_loop`, `pump`, `window`, `session` | one turn of a stream, losses and asks, the once-a-second report, how a session starts and ends |
| `decoder`, `video`, `video_types`, `frame`, `planar` | the ladder of decoders, what is advertised, decoded pictures |
| `dxva`, `dxva_unit`, `handoff` | access units on the native Windows rung and the hand-off to the presenter |
| `pad_*`, `buttons`, `gesture`, `menu`, `ds5` | controllers: slots, chords, masks, menus, feedback |
| `settings`, `plan`, `link`, `contract`, `supervise` | presets, connect plans, links, the session's process |
| `library` | a host's titles and pictures |
| `audio` | the audio plane |
| `text`, `wire` | text and protocol numbers |

Calls into other crates stand behind a few trusted functions (`serde_json` and `rand` in
`contract`, `ureq` in `library`), each with a comment that says what is taken on trust. Of the
standard library, `String::push` is (in `text`).

`app/` is ordinary Rust around the library: files, processes, HTTP, SDL, floating point, and
the loops that carry the decisions out. `tests/` runs the library on concrete values.
