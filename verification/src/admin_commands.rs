use vstd::prelude::*;

use crate::character_info::CharacterInfo;
use crate::effects::{Coords, Effect, MapRequest, Notice, WarpEffect, WarpRequest, WorldRequest};
use crate::lookup::{read_i32, resolve_id, resolved_id};
use crate::player_commands::{check_args, validation, Arg};
use crate::text::{
    decimal, decimal_text, i32_of, is_text, join_first, joined, parse_u32, u32_of, views,
};

verus! {

/// A chat command for staff, typed after `$`.
#[derive(Debug, Clone)]
pub struct AdminCommand {
    pub name: String,
    pub usage: String,
    pub alias: String,
    pub args: Vec<Arg>,
    /// The least admin level that may use the command.
    pub admin_level: i32,
}

/// What an admin command comes to.
#[derive(Debug, Clone, PartialEq, Eq)]
pub enum AdminOutcome {
    /// Nothing happens.
    Nothing,
    /// One effect.
    Do(Effect),
    /// Warp the admin to `map_id`, when that map exists: to the coordinates
    /// typed (x then y), or else to the middle of the map.
    WarpToMap { map_id: i32, coord_args: Option<(String, String)> },
    /// Warp the admin to where the named character stands, when it is online.
    WarpToCharacter { target: String },
}

/// Command `i` of `commands` has the given name or alias.
pub open spec fn admin_command_is(commands: Seq<AdminCommand>, word: Seq<char>, i: int) -> bool {
    commands[i].name@ == word || commands[i].alias@ == word
}

pub open spec fn first_admin_command(commands: Seq<AdminCommand>, word: Seq<char>, i: int) -> bool {
    &&& 0 <= i < commands.len()
    &&& admin_command_is(commands, word, i)
    &&& forall|j: int| 0 <= j < i ==> !admin_command_is(commands, word, j)
}

/// The position of the first command with the given name or alias.
pub open spec fn admin_command_position(commands: Seq<AdminCommand>, word: Seq<char>) -> Option<int> {
    if exists|i: int| first_admin_command(commands, word, i) {
        Some(choose|i: int| first_admin_command(commands, word, i))
    } else {
        None
    }
}

/// The arguments of `spawnitem` are read as an item name of several words and
/// an optional amount: when more than one word was typed and the last reads as
/// a number, the others are joined by spaces and the number is written back
/// plainly; otherwise all words are joined. Other commands keep their words.
pub open spec fn command_args(name: Seq<char>, rest: Seq<Seq<char>>) -> Seq<Seq<char>> {
    if name == "spawnitem"@ && rest.len() > 1 {
        match u32_of(rest.last()) {
            Some(amount) => seq![
                joined(rest.drop_last(), " "@),
                decimal(amount as nat),
            ],
            None => seq![joined(rest, " "@)],
        }
    } else {
        rest
    }
}

/// The inputs on which the command handler aborts: an argument it reads is
/// missing, a number it reads does not fit, or the acting player has no id.
pub open spec fn admin_step_aborts(
    name: Seq<char>,
    args: Seq<Seq<char>>,
    ch: CharacterInfo,
    items: Seq<Seq<char>>,
    npcs: Seq<Seq<char>>,
) -> bool {
    if name == "hide"@ {
        false
    } else if name == "spawnitem"@ {
        ch.has_player && (args.len() == 0 || (resolved_id(args[0], items) is Some && args.len()
            >= 2 && i32_of(args[1]) is None))
    } else if name == "spawnnpc"@ {
        ch.has_player && (args.len() == 0 || (resolved_id(args[0], npcs) is Some && ((args.len()
            >= 2 && i32_of(args[1]) is None) || (args.len() >= 3 && i32_of(args[2]) is None))))
    } else if name == "warp"@ {
        ch.has_player && (args.len() == 0 || i32_of(args[0]) is None)
    } else if name == "warptome"@ {
        args.len() == 0
    } else if name == "warpmeto"@ {
        ch.has_player && args.len() == 0
    } else if name == "evacuate"@ {
        false
    } else if name == "jail"@ || name == "free"@ || name == "kick"@ || name == "skick"@ || name
        == "ban"@ || name == "sban"@ {
        args.len() == 0
    } else if name == "quake"@ {
        args.len() > 0 && i32_of(args[0]) is None
    } else if name == "mute"@ {
        args.len() == 0
    } else if name == "player"@ || name == "inventory"@ {
        ch.player_id is None || args.len() == 0
    } else if name == "freeze"@ || name == "unfreeze"@ {
        args.len() == 0
    } else if name == "captcha"@ {
        args.len() < 2 || i32_of(args[1]) is None
    } else {
        false
    }
}

/// What a known command does once the acting character may use it and its
/// arguments have been checked.
pub open spec fn admin_step(
    c: AdminCommand,
    args: Seq<String>,
    ch: CharacterInfo,
    items: Seq<Seq<char>>,
    npcs: Seq<Seq<char>>,
) -> AdminOutcome {
    let name = c.name@;
    if name == "hide"@ {
        if ch.has_player {
            AdminOutcome::Do(Effect::ToMap(MapRequest::ToggleHidden))
        } else {
            AdminOutcome::Nothing
        }
    } else if name == "spawnitem"@ {
        if !ch.has_player {
            AdminOutcome::Nothing
        } else {
            match resolved_id(args[0]@, items) {
                None => AdminOutcome::Do(Effect::Notice(Notice::NoItemNamed(args[0]))),
                Some(item_id) => AdminOutcome::Do(
                    Effect::ToMap(
                        MapRequest::GiveItem {
                            item_id,
                            amount: if args.len() >= 2 {
                                i32_of(args[1]@)->0
                            } else {
                                1
                            },
                        },
                    ),
                ),
            }
        }
    } else if name == "spawnnpc"@ {
        if !ch.has_player {
            AdminOutcome::Nothing
        } else {
            match resolved_id(args[0]@, npcs) {
                None => AdminOutcome::Do(Effect::Notice(Notice::NoNpcNamed(args[0]))),
                Some(npc_id) => AdminOutcome::Do(
                    Effect::ToMap(
                        MapRequest::SpawnNpc {
                            npc_id,
                            amount: if args.len() >= 2 {
                                i32_of(args[1]@)->0
                            } else {
                                1
                            },
                            speed: if args.len() >= 3 {
                                i32_of(args[2]@)->0
                            } else {
                                3
                            },
                        },
                    ),
                ),
            }
        }
    } else if name == "warp"@ {
        if !ch.has_player {
            AdminOutcome::Nothing
        } else {
            AdminOutcome::WarpToMap {
                map_id: i32_of(args[0]@)->0,
                coord_args: if args.len() >= 3 {
                    Some((args[1], args[2]))
                } else {
                    None
                },
            }
        }
    } else if name == "warptome"@ {
        AdminOutcome::Do(
            Effect::ToWorld(
                WorldRequest::WarpPlayer { target: args[0], map_id: ch.map_id, coords: ch.coords },
            ),
        )
    } else if name == "warpmeto"@ {
        if ch.has_player {
            AdminOutcome::WarpToCharacter { target: args[0] }
        } else {
            AdminOutcome::Nothing
        }
    } else if name == "evacuate"@ {
        AdminOutcome::Do(Effect::ToMap(MapRequest::StartEvacuate))
    } else if name == "jail"@ {
        AdminOutcome::Do(
            Effect::ToWorld(WorldRequest::JailPlayer { target: args[0], admin: ch.name }),
        )
    } else if name == "free"@ {
        AdminOutcome::Do(Effect::ToWorld(WorldRequest::FreePlayer { target: args[0] }))
    } else if name == "kick"@ || name == "skick"@ {
        AdminOutcome::Do(
            Effect::ToWorld(
                WorldRequest::KickPlayer {
                    target: args[0],
                    admin: ch.name,
                    silent: name == "skick"@,
                },
            ),
        )
    } else if name == "ban"@ || name == "sban"@ {
        AdminOutcome::Do(
            Effect::ToWorld(
                WorldRequest::BanPlayer {
                    target: args[0],
                    duration: if args.len() > 1 {
                        Some(args[1])
                    } else {
                        None
                    },
                    admin: ch.name,
                    silent: name == "sban"@,
                },
            ),
        )
    } else if name == "quake"@ {
        AdminOutcome::Do(
            Effect::ToWorld(
                WorldRequest::Quake {
                    magnitude: if args.len() == 0 {
                        1
                    } else {
                        i32_of(args[0]@)->0
                    },
                },
            ),
        )
    } else if name == "mute"@ {
        AdminOutcome::Do(
            Effect::ToWorld(WorldRequest::MutePlayer { target: args[0], admin: ch.name }),
        )
    } else if name == "player"@ {
        AdminOutcome::Do(Effect::ToWorld(WorldRequest::RequestPlayerInfo { target: args[0] }))
    } else if name == "inventory"@ {
        AdminOutcome::Do(
            Effect::ToWorld(WorldRequest::RequestPlayerInventory { target: args[0] }),
        )
    } else if name == "freeze"@ {
        AdminOutcome::Do(
            Effect::ToWorld(WorldRequest::FreezePlayer { target: args[0], admin: ch.name }),
        )
    } else if name == "unfreeze"@ {
        AdminOutcome::Do(
            Effect::ToWorld(WorldRequest::UnfreezePlayer { target: args[0], admin: ch.name }),
        )
    } else if name == "global"@ {
        AdminOutcome::Do(Effect::ToWorld(WorldRequest::ToggleGlobal { admin: ch.name }))
    } else if name == "remap"@ {
        AdminOutcome::Do(Effect::ToWorld(WorldRequest::ReloadMap { map_id: ch.map_id }))
    } else if name == "captcha"@ {
        AdminOutcome::Do(
            Effect::ToWorld(
                WorldRequest::ShowCaptcha { target: args[0], experience: i32_of(args[1]@)->0 },
            ),
        )
    } else {
        AdminOutcome::Do(Effect::Notice(Notice::Unimplemented(c.name)))
    }
}

fn world(w: WorldRequest) -> (r: AdminOutcome)
    ensures
        r == AdminOutcome::Do(Effect::ToWorld(w)),
{
    AdminOutcome::Do(Effect::ToWorld(w))
}

/// Carries out a known command (see [`admin_step`]).
pub fn run_admin_step(
    c: &AdminCommand,
    args: &Vec<String>,
    ch: &CharacterInfo,
    items: &Vec<String>,
    npcs: &Vec<String>,
) -> (r: AdminOutcome)
    requires
        items@.len() < i32::MAX,
        npcs@.len() < i32::MAX,
        !admin_step_aborts(c.name@, views(args@), *ch, views(items@), views(npcs@)),
    ensures
        r == admin_step(*c, args@, *ch, views(items@), views(npcs@)),
{
    let ghost a = views(args@);
    assert(a.len() == args@.len());
    assert(forall|i: int| 0 <= i < args@.len() ==> a[i] == #[trigger] args@[i]@);
    if is_text(&c.name, "hide") {
        if ch.has_player {
            AdminOutcome::Do(Effect::ToMap(MapRequest::ToggleHidden))
        } else {
            AdminOutcome::Nothing
        }
    } else if is_text(&c.name, "spawnitem") {
        if !ch.has_player {
            return AdminOutcome::Nothing;
        }
        match resolve_id(&args[0], items) {
            None => AdminOutcome::Do(Effect::Notice(Notice::NoItemNamed(args[0].clone()))),
            Some(item_id) => {
                let amount = if args.len() >= 2 {
                    read_i32(&args[1])
                } else {
                    1
                };
                AdminOutcome::Do(Effect::ToMap(MapRequest::GiveItem { item_id, amount }))
            },
        }
    } else if is_text(&c.name, "spawnnpc") {
        if !ch.has_player {
            return AdminOutcome::Nothing;
        }
        match resolve_id(&args[0], npcs) {
            None => AdminOutcome::Do(Effect::Notice(Notice::NoNpcNamed(args[0].clone()))),
            Some(npc_id) => {
                let amount = if args.len() >= 2 {
                    read_i32(&args[1])
                } else {
                    1
                };
                let speed = if args.len() >= 3 {
                    read_i32(&args[2])
                } else {
                    3
                };
                AdminOutcome::Do(Effect::ToMap(MapRequest::SpawnNpc { npc_id, amount, speed }))
            },
        }
    } else if is_text(&c.name, "warp") {
        if !ch.has_player {
            return AdminOutcome::Nothing;
        }
        let map_id = read_i32(&args[0]);
        let coord_args = if args.len() >= 3 {
            Some((args[1].clone(), args[2].clone()))
        } else {
            None
        };
        AdminOutcome::WarpToMap { map_id, coord_args }
    } else if is_text(&c.name, "warptome") {
        world(WorldRequest::WarpPlayer { target: args[0].clone(), map_id: ch.map_id, coords: ch.coords })
    } else if is_text(&c.name, "warpmeto") {
        if ch.has_player {
            AdminOutcome::WarpToCharacter { target: args[0].clone() }
        } else {
            AdminOutcome::Nothing
        }
    } else if is_text(&c.name, "evacuate") {
        AdminOutcome::Do(Effect::ToMap(MapRequest::StartEvacuate))
    } else if is_text(&c.name, "jail") {
        world(WorldRequest::JailPlayer { target: args[0].clone(), admin: ch.name.clone() })
    } else if is_text(&c.name, "free") {
        world(WorldRequest::FreePlayer { target: args[0].clone() })
    } else if is_text(&c.name, "kick") || is_text(&c.name, "skick") {
        let silent = is_text(&c.name, "skick");
        world(WorldRequest::KickPlayer { target: args[0].clone(), admin: ch.name.clone(), silent })
    } else if is_text(&c.name, "ban") || is_text(&c.name, "sban") {
        let silent = is_text(&c.name, "sban");
        let duration = if args.len() > 1 {
            Some(args[1].clone())
        } else {
            None
        };
        world(
            WorldRequest::BanPlayer {
                target: args[0].clone(),
                duration,
                admin: ch.name.clone(),
                silent,
            },
        )
    } else if is_text(&c.name, "quake") {
        let magnitude = if args.len() == 0 {
            1
        } else {
            read_i32(&args[0])
        };
        world(WorldRequest::Quake { magnitude })
    } else if is_text(&c.name, "mute") {
        world(WorldRequest::MutePlayer { target: args[0].clone(), admin: ch.name.clone() })
    } else if is_text(&c.name, "player") {
        world(WorldRequest::RequestPlayerInfo { target: args[0].clone() })
    } else if is_text(&c.name, "inventory") {
        world(WorldRequest::RequestPlayerInventory { target: args[0].clone() })
    } else if is_text(&c.name, "freeze") {
        world(WorldRequest::FreezePlayer { target: args[0].clone(), admin: ch.name.clone() })
    } else if is_text(&c.name, "unfreeze") {
        world(WorldRequest::UnfreezePlayer { target: args[0].clone(), admin: ch.name.clone() })
    } else if is_text(&c.name, "global") {
        world(WorldRequest::ToggleGlobal { admin: ch.name.clone() })
    } else if is_text(&c.name, "remap") {
        world(WorldRequest::ReloadMap { map_id: ch.map_id })
    } else if is_text(&c.name, "captcha") {
        let experience = read_i32(&args[1]);
        world(WorldRequest::ShowCaptcha { target: args[0].clone(), experience })
    } else {
        AdminOutcome::Do(Effect::Notice(Notice::Unimplemented(c.name.clone())))
    }
}

/// `args` are the arguments command `c` reads from the words typed: copies of
/// the words after the first, or for `spawnitem` the words rewritten by
/// [`command_args`].
pub open spec fn admin_args_for(c: AdminCommand, words: Seq<String>, args: Seq<String>) -> bool {
    if c.name@ == "spawnitem"@ && words.len() > 2 {
        views(args) == command_args(c.name@, views(words.drop_first()))
    } else {
        args == words.drop_first()
    }
}

/// What command `c` does with its arguments `args`.
pub open spec fn admin_outcome_for(
    r: AdminOutcome,
    c: AdminCommand,
    args: Seq<String>,
    ch: CharacterInfo,
    items: Seq<Seq<char>>,
    npcs: Seq<Seq<char>>,
) -> bool {
    if ch.admin_level >= c.admin_level {
        match validation(views(args), c.args@, c.usage@) {
            Ok(()) => r == admin_step(c, args, ch, items, npcs),
            Err(ev) => r matches AdminOutcome::Do(Effect::Notice(Notice::BadArgs(e))) && e.view()
                == ev,
        }
    } else {
        r == AdminOutcome::Nothing
    }
}

/// The outcome of an admin command line: `words` are the words typed after
/// `$`, the first naming the command. An unknown command is answered with a
/// notice; a command whose level is above the character's admin level does
/// nothing; refused arguments are answered with a notice; otherwise the command
/// runs on its arguments (see [`command_args`] and [`admin_step`]).
pub open spec fn admin_command_outcome(
    r: AdminOutcome,
    words: Seq<String>,
    ch: CharacterInfo,
    commands: Seq<AdminCommand>,
    items: Seq<Seq<char>>,
    npcs: Seq<Seq<char>>,
) -> bool {
    match admin_command_position(commands, words[0]@) {
        None => r == AdminOutcome::Do(Effect::Notice(Notice::UnknownCommand(words[0]))),
        Some(k) => {
            let c = commands[k];
            exists|args: Seq<String>|
                #[trigger] admin_args_for(c, words, args) && admin_outcome_for(
                    r,
                    c,
                    args,
                    ch,
                    items,
                    npcs,
                )
        },
    }
}

/// The admin command lines on which the handler aborts (see
/// [`admin_step_aborts`]).
pub open spec fn admin_command_aborts(
    words: Seq<Seq<char>>,
    ch: CharacterInfo,
    commands: Seq<AdminCommand>,
    items: Seq<Seq<char>>,
    npcs: Seq<Seq<char>>,
) -> bool {
    match admin_command_position(commands, words[0]) {
        None => false,
        Some(k) => {
            let c = commands[k];
            let args = command_args(c.name@, words.drop_first());
            &&& ch.admin_level >= c.admin_level
            &&& validation(args, c.args@, c.usage@) is Ok
            &&& admin_step_aborts(c.name@, args, ch, items, npcs)
        },
    }
}

/// The position of the first command with the given name or alias.
pub fn find_admin_command(commands: &Vec<AdminCommand>, word: &String) -> (r: Option<usize>)
    ensures
        match r {
            Some(k) => admin_command_position(commands@, word@) == Some(k as int),
            None => admin_command_position(commands@, word@) is None,
        },
{
    let mut i: usize = 0;
    while i < commands.len()
        invariant
            i <= commands@.len(),
            forall|j: int| 0 <= j < i ==> !admin_command_is(commands@, word@, j),
        decreases commands@.len() - i,
    {
        if commands[i].name == *word || commands[i].alias == *word {
            assert(first_admin_command(commands@, word@, i as int));
            proof {
                let k = choose|k: int| first_admin_command(commands@, word@, k);
                if k < i {
                    assert(!admin_command_is(commands@, word@, k));
                } else if k > i {
                    assert(!admin_command_is(commands@, word@, i as int));
                }
            }
            return Some(i);
        }
        i = i + 1;
    }
    None
}

/// Copies of the words after the first.
fn words_after_first(words: &Vec<String>) -> (r: Vec<String>)
    requires
        words@.len() >= 1,
    ensures
        r@ == words@.drop_first(),
{
    let mut rest: Vec<String> = Vec::new();
    let mut i: usize = 1;
    while i < words.len()
        invariant
            1 <= i <= words@.len(),
            rest@ == words@.subrange(1, i as int),
        decreases words@.len() - i,
    {
        rest.push(words[i].clone());
        assert(words@.subrange(1, i + 1) =~= words@.subrange(1, i as int).push(words@[i as int]));
        i = i + 1;
    }
    assert(words@.subrange(1, words@.len() as int) =~= words@.drop_first());
    rest
}

/// The arguments a command reads from the words typed (see [`command_args`]).
pub fn admin_command_args(name: &String, words: &Vec<String>) -> (r: Vec<String>)
    requires
        words@.len() >= 1,
    ensures
        views(r@) == command_args(name@, views(words@.drop_first())),
        !(name@ == "spawnitem"@ && words@.len() > 2) ==> r@ == words@.drop_first(),
{
    let rest = words_after_first(words);
    let ghost rv = views(rest@);
    assert(rv.len() == rest@.len());
    if is_text(name, "spawnitem") && rest.len() > 1 {
        let last = rest.len() - 1;
        assert(rv.last() == rest@[last as int]@);
        match parse_u32(rest[last].as_str()) {
            Some(amount) => {
                let item_name = join_first(&rest, last, " ");
                let amount_text = decimal_text(amount);
                assert(views(rest@.take(last as int)) =~= rv.drop_last());
                let out = vec![item_name, amount_text];
                assert(views(out@) =~= seq![joined(rv.drop_last(), " "@), decimal(amount as nat)]);
                out
            },
            None => {
                let item_name = join_first(&rest, rest.len(), " ");
                assert(rest@.take(rest@.len() as int) =~= rest@);
                let out = vec![item_name];
                assert(views(out@) =~= seq![joined(rv, " "@)]);
                out
            },
        }
    } else {
        rest
    }
}

/// Handles an admin command line (see [`admin_command_outcome`]).
pub fn handle_command(
    words: &Vec<String>,
    ch: &CharacterInfo,
    commands: &Vec<AdminCommand>,
    items: &Vec<String>,
    npcs: &Vec<String>,
) -> (r: AdminOutcome)
    requires
        words@.len() >= 1,
        items@.len() < i32::MAX,
        npcs@.len() < i32::MAX,
        forall|k: int| 0 <= k < commands@.len() ==> #[trigger] commands@[k].args@.len() < usize::MAX,
        !admin_command_aborts(views(words@), *ch, commands@, views(items@), views(npcs@)),
    ensures
        admin_command_outcome(r, words@, *ch, commands@, views(items@), views(npcs@)),
{
    assert(views(words@)[0] == words@[0]@);
    assert(views(words@.drop_first()) =~= views(words@).drop_first());
    match find_admin_command(commands, &words[0]) {
        None => AdminOutcome::Do(Effect::Notice(Notice::UnknownCommand(words[0].clone()))),
        Some(k) => {
            let c = &commands[k];
            let args = admin_command_args(&c.name, words);
            assert(admin_args_for(*c, words@, args@));
            if ch.admin_level >= c.admin_level {
                match check_args(&args, &c.args, &c.usage) {
                    Ok(()) => run_admin_step(c, &args, ch, items, npcs),
                    Err(e) => AdminOutcome::Do(Effect::Notice(Notice::BadArgs(e))),
                }
            } else {
                AdminOutcome::Nothing
            }
        },
    }
}

/// Whether the handler aborts on this admin command line (see
/// [`admin_command_aborts`]); callers test this before handling the line.
pub fn command_aborts(
    words: &Vec<String>,
    ch: &CharacterInfo,
    commands: &Vec<AdminCommand>,
    items: &Vec<String>,
    npcs: &Vec<String>,
) -> (r: bool)
    requires
        words@.len() >= 1,
        items@.len() < i32::MAX,
        npcs@.len() < i32::MAX,
        forall|k: int| 0 <= k < commands@.len() ==> #[trigger] commands@[k].args@.len() < usize::MAX,
    ensures
        r == admin_command_aborts(views(words@), *ch, commands@, views(items@), views(npcs@)),
{
    assert(views(words@)[0] == words@[0]@);
    assert(views(words@.drop_first()) =~= views(words@).drop_first());
    match find_admin_command(commands, &words[0]) {
        None => false,
        Some(k) => {
            let c = &commands[k];
            let args = admin_command_args(&c.name, words);
            if ch.admin_level < c.admin_level {
                return false;
            }
            if check_args(&args, &c.args, &c.usage).is_err() {
                return false;
            }
            step_aborts(&c.name, &args, ch, items, npcs)
        },
    }
}

fn reads_i32(s: &String) -> (r: bool)
    ensures
        r == (i32_of(s@) is Some),
{
    crate::text::parse_i32(s.as_str()).is_some()
}

/// Whether a known command aborts on its arguments (see [`admin_step_aborts`]).
fn step_aborts(
    name: &String,
    args: &Vec<String>,
    ch: &CharacterInfo,
    items: &Vec<String>,
    npcs: &Vec<String>,
) -> (r: bool)
    requires
        items@.len() < i32::MAX,
        npcs@.len() < i32::MAX,
    ensures
        r == admin_step_aborts(name@, views(args@), *ch, views(items@), views(npcs@)),
{
    let ghost a = views(args@);
    assert(a.len() == args@.len());
    assert(forall|i: int| 0 <= i < args@.len() ==> a[i] == #[trigger] args@[i]@);
    let n = args.len();
    if is_text(name, "hide") {
        false
    } else if is_text(name, "spawnitem") {
        ch.has_player && (n == 0 || (resolve_id(&args[0], items).is_some() && n >= 2 && !reads_i32(
            &args[1],
        )))
    } else if is_text(name, "spawnnpc") {
        ch.has_player && (n == 0 || (resolve_id(&args[0], npcs).is_some() && ((n >= 2
            && !reads_i32(&args[1])) || (n >= 3 && !reads_i32(&args[2])))))
    } else if is_text(name, "warp") {
        ch.has_player && (n == 0 || !reads_i32(&args[0]))
    } else if is_text(name, "warptome") {
        n == 0
    } else if is_text(name, "warpmeto") {
        ch.has_player && n == 0
    } else if is_text(name, "evacuate") {
        false
    } else if is_text(name, "jail") || is_text(name, "free") || is_text(name, "kick") || is_text(
        name,
        "skick",
    ) || is_text(name, "ban") || is_text(name, "sban") {
        n == 0
    } else if is_text(name, "quake") {
        n > 0 && !reads_i32(&args[0])
    } else if is_text(name, "mute") {
        n == 0
    } else if is_text(name, "player") || is_text(name, "inventory") {
        ch.player_id.is_none() || n == 0
    } else if is_text(name, "freeze") || is_text(name, "unfreeze") {
        n == 0
    } else if is_text(name, "captcha") {
        n < 2 || !reads_i32(&args[1])
    } else {
        false
    }
}

/// Half of `x`, rounded toward zero as Rust's `/` does.
pub open spec fn half(x: i32) -> i32 {
    if x >= 0 {
        (x / 2) as i32
    } else {
        (0 - ((0 - x) / 2)) as i32
    }
}

/// Where an admin warp to a map ends: `dimensions` is the size of the map
/// when it exists. A missing map is reported to the admin; otherwise the admin
/// is warped, with the admin effect, to the coordinates typed or else to the
/// middle of the map.
pub fn finish_warp_to_map(map_id: i32, coord_args: &Option<(String, String)>, dimensions: Option<
    Coords,
>) -> (r: Effect)
    requires
        dimensions is Some ==> match coord_args {
            Some((x, y)) => i32_of(x@) is Some && i32_of(y@) is Some,
            None => true,
        },
    ensures
        match dimensions {
            None => r == Effect::Notice(Notice::NoSuchMap(map_id)),
            Some(d) => r == Effect::Warp(
                WarpRequest {
                    map_id,
                    coords: match coord_args {
                        Some((x, y)) => Coords { x: i32_of(x@)->0, y: i32_of(y@)->0 },
                        None => Coords { x: half(d.x), y: half(d.y) },
                    },
                    local: false,
                    animation: Some(WarpEffect::Admin),
                },
            ),
        },
{
    match dimensions {
        None => Effect::Notice(Notice::NoSuchMap(map_id)),
        Some(d) => {
            let coords = match coord_args {
                Some((x, y)) => Coords { x: read_i32(x), y: read_i32(y) },
                None => Coords { x: d.x / 2, y: d.y / 2 },
            };
            Effect::Warp(
                WarpRequest { map_id, coords, local: false, animation: Some(WarpEffect::Admin) },
            )
        },
    }
}

/// Where an admin warp to a character ends: `location` is the map and place of
/// the character when it is online.
pub fn finish_warp_to_character(location: Option<(i32, Coords)>) -> (r: Option<Effect>)
    ensures
        match location {
            None => r is None,
            Some((map_id, coords)) => r == Some(
                Effect::Warp(
                    WarpRequest { map_id, coords, local: false, animation: Some(WarpEffect::Admin) },
                ),
            ),
        },
{
    match location {
        None => None,
        Some((map_id, coords)) => Some(
            Effect::Warp(
                WarpRequest { map_id, coords, local: false, animation: Some(WarpEffect::Admin) },
            ),
        ),
    }
}

} // verus!
