# zbr

The decision-making core of ZBR, a scripting runtime for Discord bots,
written in Verus with its behaviour stated as contracts and proved.

- `src/` — the verified library: text and number handling, argument parsing,
  error messages, the response built from a script run, the event and
  interaction handling of the bot (which command runs, with what context, and
  how the bot answers), the resolution of stored-variable references in
  triggers, cooldown arithmetic, and the logic of the built-in functions
  (AI requests and replies, audit logs, auto-moderation, blacklists, bot
  information).
- `app/` — the effects around it: the gateway handler, the SQLite store, the
  HTTP requests, and the conversions from Discord's types.
- `tests/` — tests of the library on concrete values.
