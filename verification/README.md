# mxp

A parser and state tracker for the MUD eXtension Protocol (MXP), verified with Verus.

Every function in `src/` carries a contract that Verus proves: parsers state exactly what
they return for every input and on which inputs they fail, and the stateful types (entity
maps, line-mode state, line tags, element definitions) state how each operation changes
their abstract view. Properties that relate several operations stand as public proof
functions named `law_*`.

## Layout

- `src/parse/`: words, arguments, validation of names, entity decoding, argument matching.
- `src/entity/`: entities and their map, and the arguments of atomic tags (sound, music,
  image, fonts, links, actions).
- `src/element/`: atomic tags, user-defined elements and their items.
- `src/node/`, `src/parsed/`: tags and definitions sent by the server, and building tags.
- `src/line/`: line modes, line-mode state and line tags.
- `src/state.rs`: the definitions a session has received.
- `src/escape/`: Telnet and ANSI constants.
- `app/`: conversions between entity keywords and `flagset` flags.
- `tests/`: tests run against the compiled library.
