# mkv

Reading and writing Matroska (EBML) streams, verified with Verus.

- `elements::parser` reads bytes as they come and reports events (an element
  begins, its payload, it ends, a resynchronisation). Its behaviour is a
  state machine over bytes (`parser::machine`); `parser::laws` shows that
  feeding bytes in pieces or at once gives the same events, and
  `parser::stopping` when the parser stops.
- `elements::builder` turns events into element trees, `elements::generator`
  trees into bytes, and `elements::roundtrip` shows that writing, reading and
  building give a tree back.
- `elements::midlevel` builds only the elements that a handler asks for;
  `events` turns its events into frames.
- `mkv` is the interface in which a parser owns its handler; `parse` reads
  EBML numbers as values.
- `app/` is a small program that logs the events of a file.
