# tbo

The verified core of a Discord music bot.

- `src/` is the library, checked by Verus: the text of every reply (embeds,
  track links, "now playing" lines with times and a progress bar, the queue
  listing), the decisions of the commands (what "play" plays, what "leave" and
  "repeat" answer, where "join" goes, how "seek" reads its argument), a voice
  state table, and the small text routines they rest on (decimal numerals,
  `u64` parsing, substring tests). The only outside call, `url::Url::parse`,
  sits behind one trusted wrapper in `src/links.rs`.
- `app/` holds the serenity commands, the songbird calls and the event
  handler; it converts between their types and the library's plain values.
- `tests/` runs the library on concrete inputs.
