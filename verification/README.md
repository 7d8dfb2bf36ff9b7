# reoserv player logic

The decisions a game server makes for one connected player of an Endless
Online server: what each client packet does, how logins, accounts and
characters are handled, the guild master, chat and commands, captchas, pings
and warps. The library is written in Verus and every function in `src/` is
verified against its contract.

The library does no input or output. A handler takes the player's state, the
bytes of a packet and what the map, the world or the database answered, and
returns the new state and a list of `Effect`s for the caller to carry out.
Work that needs more answers from outside comes back as a job (`GuildJob`,
`TalkJob`, `LoginCheck`, `FinishLogin`, `CharacterWork`, ...) whose next step the caller
hands back to the library.

Layout of `src/`:

- `player.rs`, `state.rs`, `settings.rs`: the player's state and the settings.
- `effects.rs`: what a decision asks the caller to do.
- `packets.rs`: the packet fields the handlers read, decoded with `eolib`.
- `forwarding.rs`, `dialogs.rs`, `dispatch.rs`: the packets decided at once,
  and the handler of each packet family.
- `session.rs`, `warp.rs`: spells, walking, attacks, captchas, pings, warps.
- `guild.rs`, `talk.rs`, `drops.rs`: the guild master, chat, drop tables.
- `login.rs`, `account.rs`, `character.rs`: logins, accounts, characters.
- `player_commands.rs`, `handle_player_command.rs`, `admin_commands.rs`,
  `quest_action.rs`, `lookup.rs`, `text.rs`: commands and their arguments.
- `notices.rs`: the texts of the server messages a player is sent.
- `rng.rs`: the random draws.
- `laws.rs`: properties that span several calls.

`app/` holds what talks to the outside: the command configuration file, the
channel to a player's session and the drop rates shown as percentages.
