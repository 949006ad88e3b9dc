# ani-cli

A terminal client for searching anime, picking episodes, keeping a local
watch history and handing playback to an external player (mpv, IINA or VLC).

The decisions of the client are a Verus-verified library, `ani_cli` (`src/`):

- `runtime`, `app`: the state machine that maps each event (a key, a reply
  from the network, a timer tick) to the next state and to the work to do,
  with laws such as "going back undoes a move" and "a reply to an old
  request changes nothing";
- `provider`, `allanime`, `crypto`, `json`: reading the AllAnime API,
  decrypting its source payload, decoding provider paths and choosing a
  stream by quality;
- `jikan`: catalogue records, title matching and edit distance;
- `presence`: what Discord is told while a player runs;
- `player`, `updater`, `config`, `avatar`, `mascot`, `theme`, `layout`,
  `text`: player command lines, self-update decisions, reports and the text
  the screens show.

`app/` is the program around it: the terminal, HTTP, SQLite, Discord IPC,
the player process and the command line. `tests/` exercises the library
with the real outside crates linked.
