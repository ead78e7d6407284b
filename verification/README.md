# valeriyya

The rules of the Valeriyya Discord bot as a verified library, and the bot
around it.

- `src/` — the library, verified with Verus:
  - `duration` reads texts such as `1h30m` as seconds (the matching is done by
    the `regex` crate, see `pattern`), and parses integers as `str::parse` does;
  - `permissions` computes a member's permission bits from their roles, orders
    roles in the hierarchy and decides whom the bot can manage;
  - `guild` is the stored record of a guild and its cases, with the edits the
    commands make to it;
  - `moderation`, `music` and `info` hold the decisions of the commands and the
    texts they post; `text` renders integers in decimal;
  - `database` and `bot` hold the older record layout and the bot's colour.
- `tests/` — tests of the library on concrete values.
- `app/` — the bot: Discord (poise, serenity, songbird), MongoDB and the
  command handlers, which call the library for every decision.
