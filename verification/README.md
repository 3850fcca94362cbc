# vanaisa

A Discord bot that now and then answers messages mentioning "pena" with a
burst of pings, and now and then answers one particular user.  It also holds
voice commands (`&join`, `&leave`, `&secret`, `&test`) and per-guild timers
that play a random "mis see on" voice line every few seconds and post how
long the wait was; the command list the bot registers holds only the two chat
triggers, so the voice commands are not reachable from chat as it stands.

The verified library (`src/`) holds the bot's decisions:

- `commands/`: which message triggers which command (`&join`, `&leave`,
  `&secret`, `&test`, "pena" messages, messages of one user), the order in
  which commands are tried, and what each command answers or does.
- `queue.rs`: the per-guild voice-line timers and one pass over them.
- `voiceline.rs`: which audio file plays and the text posted with it.
- `handler.rs`: ready message, presence, and the start-once timer loop.
- `pattern.rs`, `random.rs`: the calls into `regex` and `rand`.
- `text.rs`: decimal rendering of numbers.
- `laws.rs`: properties that span several operations.

`app/` is the Discord program around it (serenity, songbird, tokio): it reads
events, performs the chat and voice I/O the library decides on, and drives
the timer loop.
