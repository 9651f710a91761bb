# nikos_discord_bot

A small Discord bot that posts random artwork from cached image-board queries.

- `src/` is the verified library (Verus): post caches (`cache.rs`), post and
  tag types (`types.rs`), text formatting of tags, author lines and program
  output (`format.rs`), the consent flow for public answers in bot channels
  (`privacy.rs`), command replies (`reply.rs`), and the shared data, cache
  refresh round and command registration plan (`bot.rs`).
- `app/` is the program around it: Discord I/O with poise, fetching posts
  through the Python image-board clients with pyo3, the background refresher.
- `tests/` exercise the library on concrete values.
