# mordoprojekt

A Discord bot ("mordo") whose decisions live in a library verified with Verus.

- `src/` — the verified library:
  - `commands` — the replies of `age`, `gimper`, `gpt`, `send_embed` and `paintdot`,
    the decoding of creation times from Discord ids;
  - `canvas` — the `paintdot` picture, painted and PNG-encoded with the `image` crate;
  - `thread` — the `thread` command as a step function over its stages;
  - `events` — the shared state and the answer to chat messages in the bot's threads;
  - `startup` — daemon mode, the single-instance rule, the pid file, gateway intents;
  - `prefix_bot` — the small `~`-prefix bot;
  - `reply` — plain descriptions of replies, embeds and attachments.
- `tests/` — tests of the library, run with the real outside crates.
- `app/` — the programs: process start-up, the gateway connection, the poise and
  prefix commands; they call the library for every decision and do the I/O.
