use vstd::prelude::*;

use crate::effects::{Effect, MapRequest, Notice};
use crate::lookup::{resolve_id, resolved_id};
use crate::player_commands::{check_args, validation, Command, PlayerCommands};
use crate::text::{is_text, join_first, joined, views};

verus! {

/// Whether a line typed after `#` was a player command.
#[derive(Debug, Clone, Copy, PartialEq, Eq, Structural)]
pub enum PlayerCommandResult {
    Handled,
    NotFound,
}

/// Command `i` of `commands` has the given name or alias.
pub open spec fn player_command_is(commands: Seq<Command>, word: Seq<char>, i: int) -> bool {
    commands[i].name@ == word || commands[i].alias@ == word
}

pub open spec fn first_player_command(commands: Seq<Command>, word: Seq<char>, i: int) -> bool {
    &&& 0 <= i < commands.len()
    &&& player_command_is(commands, word, i)
    &&& forall|j: int| 0 <= j < i ==> !player_command_is(commands, word, j)
}

/// The position of the first command with the given name or alias.
pub open spec fn player_command_position(commands: Seq<Command>, word: Seq<char>) -> Option<int> {
    if exists|i: int| first_player_command(commands, word, i) {
        Some(choose|i: int| first_player_command(commands, word, i))
    } else {
        None
    }
}

/// The arguments a player command reads from the words after its name: for
/// `autopickup` with more than one word, the sub command and the rest joined
/// by spaces (an item name of several words).
pub open spec fn player_command_args(name: Seq<char>, rest: Seq<Seq<char>>) -> Seq<Seq<char>> {
    if name == "autopickup"@ && rest.len() > 1 {
        seq![rest[0], joined(rest.drop_first(), " "@)]
    } else {
        rest
    }
}

/// The sub command of `autopickup`: its first argument, `list` when none.
pub open spec fn sub_command(args: Seq<Seq<char>>) -> Seq<char> {
    if args.len() > 0 {
        args[0]
    } else {
        "list"@
    }
}

/// The `autopickup` lines on which the handler aborts: a sub command other
/// than `list` or `clear` with no item named.
pub open spec fn autopickup_aborts(args: Seq<Seq<char>>, enabled: bool) -> bool {
    enabled && sub_command(args) != "list"@ && sub_command(args) != "clear"@ && args.len() < 2
}

/// What `autopickup` does with its arguments when auto pickup is `enabled`:
/// `list` and `clear` act on the player's list; otherwise the second argument
/// names an item (by id or name) that `add` adds and `remove` removes.
pub open spec fn autopickup_effect(
    r: Option<Effect>,
    args: Seq<String>,
    items: Seq<Seq<char>>,
    enabled: bool,
) -> bool {
    let a = views(args);
    if !enabled {
        r is None
    } else if sub_command(a) == "list"@ {
        r == Some(Effect::ToMap(MapRequest::ListAutoPickupItems))
    } else if sub_command(a) == "clear"@ {
        r == Some(Effect::ToMap(MapRequest::ClearAutoPickupItems))
    } else {
        match resolved_id(a[1], items) {
            None => r == Some(Effect::Notice(Notice::NoItemNamed(args[1]))),
            Some(item_id) => if a[0] == "add"@ {
                r == Some(Effect::ToMap(MapRequest::AddAutoPickupItem { item_id }))
            } else if a[0] == "remove"@ {
                r == Some(Effect::ToMap(MapRequest::RemoveAutoPickupItem { item_id }))
            } else {
                r == Some(Effect::Notice(Notice::InvalidAutopickupArgument))
            },
        }
    }
}

/// The lines on which the handler aborts (see [`autopickup_aborts`]).
pub open spec fn player_command_aborts(
    words: Seq<Seq<char>>,
    commands: Seq<Command>,
    enabled: bool,
) -> bool {
    match player_command_position(commands, words[0]) {
        None => false,
        Some(k) => {
            let c = commands[k];
            let args = player_command_args(c.name@, words.drop_first());
            &&& validation(args, c.args@, c.usage@) is Ok
            &&& c.name@ == "autopickup"@
            &&& autopickup_aborts(args, enabled)
        },
    }
}

/// `args` are what command `c` reads from the typed words.
pub open spec fn player_args_for(c: Command, words: Seq<String>, args: Seq<String>) -> bool {
    if c.name@ == "autopickup"@ && words.len() > 2 {
        views(args) == player_command_args(c.name@, views(words.drop_first()))
    } else {
        args == words.drop_first()
    }
}

/// What command `c` does with its arguments: refused arguments are answered
/// with a notice; `autopickup` runs; any other configured command is not one
/// that this handler knows.
pub open spec fn player_outcome_for(
    r: (PlayerCommandResult, Option<Effect>),
    c: Command,
    args: Seq<String>,
    items: Seq<Seq<char>>,
    enabled: bool,
) -> bool {
    match validation(views(args), c.args@, c.usage@) {
        Err(ev) => r.0 == PlayerCommandResult::Handled && (r.1 matches Some(
            Effect::Notice(Notice::BadArgs(e)),
        ) && e.view() == ev),
        Ok(()) => if c.name@ == "autopickup"@ {
            r.0 == PlayerCommandResult::Handled && autopickup_effect(r.1, args, items, enabled)
        } else {
            r == (PlayerCommandResult::NotFound, None::<Effect>)
        },
    }
}

/// The outcome of a line typed after `#`: `words` are its words, the first
/// naming the command. An unknown command is not found.
pub open spec fn player_command_outcome(
    r: (PlayerCommandResult, Option<Effect>),
    words: Seq<String>,
    commands: Seq<Command>,
    items: Seq<Seq<char>>,
    enabled: bool,
) -> bool {
    match player_command_position(commands, words[0]@) {
        None => r == (PlayerCommandResult::NotFound, None::<Effect>),
        Some(k) => exists|args: Seq<String>|
            #[trigger] player_args_for(commands[k], words, args) && player_outcome_for(
                r,
                commands[k],
                args,
                items,
                enabled,
            ),
    }
}

/// The position of the first command with the given name or alias.
pub fn find_player_command(commands: &Vec<Command>, word: &String) -> (r: Option<usize>)
    ensures
        match r {
            Some(k) => player_command_position(commands@, word@) == Some(k as int),
            None => player_command_position(commands@, word@) is None,
        },
{
    let mut i: usize = 0;
    while i < commands.len()
        invariant
            i <= commands@.len(),
            forall|j: int| 0 <= j < i ==> !player_command_is(commands@, word@, j),
        decreases commands@.len() - i,
    {
        if commands[i].name == *word || commands[i].alias == *word {
            assert(first_player_command(commands@, word@, i as int));
            proof {
                let k = choose|k: int| first_player_command(commands@, word@, k);
                if k < i {
                    assert(!player_command_is(commands@, word@, k));
                } else if k > i {
                    assert(!player_command_is(commands@, word@, i as int));
                }
            }
            return Some(i);
        }
        i = i + 1;
    }
    None
}

/// The arguments a player command reads (see [`player_command_args`]).
fn command_args_of(name: &String, words: &Vec<String>) -> (r: Vec<String>)
    requires
        words@.len() >= 1,
    ensures
        views(r@) == player_command_args(name@, views(words@.drop_first())),
        !(name@ == "autopickup"@ && words@.len() > 2) ==> r@ == words@.drop_first(),
{
    let mut rest: Vec<String> = Vec::new();
    let mut i: usize = 1;
    while i < words.len()
        invariant
            1 <= i <= words@.len(),
            rest@ == words@.subrange(1, i as int),
        decreases words@.len() - i,
    {
        rest.push(words[i].clone());
        assert(words@.subrange(1, i + 1) =~= words@.subrange(1, i as int).push(words@[i as int]));
        i = i + 1;
    }
    assert(words@.subrange(1, words@.len() as int) =~= words@.drop_first());
    let ghost rv = views(rest@);
    assert(rv.len() == rest@.len());
    if is_text(name, "autopickup") && rest.len() > 1 {
        let mut tail: Vec<String> = Vec::new();
        let mut j: usize = 1;
        while j < rest.len()
            invariant
                1 <= j <= rest@.len(),
                tail@ == rest@.subrange(1, j as int),
            decreases rest@.len() - j,
        {
            tail.push(rest[j].clone());
            assert(rest@.subrange(1, j + 1) =~= rest@.subrange(1, j as int).push(rest@[j as int]));
            j = j + 1;
        }
        let item_name = join_first(&tail, tail.len(), " ");
        assert(tail@.take(tail@.len() as int) =~= tail@);
        assert(views(tail@) =~= rv.drop_first());
        let out = vec![rest[0].clone(), item_name];
        assert(views(out@) =~= seq![rv[0], joined(rv.drop_first(), " "@)]);
        out
    } else {
        rest
    }
}

/// Runs `autopickup` (see [`autopickup_effect`]).
fn autopickup(args: &Vec<String>, items: &Vec<String>, enabled: bool) -> (r: Option<Effect>)
    requires
        items@.len() < i32::MAX,
        !autopickup_aborts(views(args@), enabled),
    ensures
        autopickup_effect(r, args@, views(items@), enabled),
{
    let ghost a = views(args@);
    assert(a.len() == args@.len());
    assert(forall|i: int| 0 <= i < args@.len() ==> a[i] == #[trigger] args@[i]@);
    if !enabled {
        return None;
    }
    let listing = if args.len() > 0 {
        is_text(&args[0], "list")
    } else {
        proof {
            reveal_strlit("list");
        }
        true
    };
    if listing {
        return Some(Effect::ToMap(MapRequest::ListAutoPickupItems));
    }
    if args.len() > 0 && is_text(&args[0], "clear") {
        return Some(Effect::ToMap(MapRequest::ClearAutoPickupItems));
    }
    proof {
        if args@.len() == 0 {
            reveal_strlit("list");
        }
    }
    match resolve_id(&args[1], items) {
        None => Some(Effect::Notice(Notice::NoItemNamed(args[1].clone()))),
        Some(item_id) => {
            if is_text(&args[0], "add") {
                Some(Effect::ToMap(MapRequest::AddAutoPickupItem { item_id }))
            } else if is_text(&args[0], "remove") {
                Some(Effect::ToMap(MapRequest::RemoveAutoPickupItem { item_id }))
            } else {
                Some(Effect::Notice(Notice::InvalidAutopickupArgument))
            }
        },
    }
}

/// Handles a line typed after `#` (see [`player_command_outcome`]).
pub fn handle_player_command(
    words: &Vec<String>,
    commands: &PlayerCommands,
    items: &Vec<String>,
    auto_pickup_enabled: bool,
) -> (r: (PlayerCommandResult, Option<Effect>))
    requires
        words@.len() >= 1,
        items@.len() < i32::MAX,
        forall|k: int|
            0 <= k < commands.commands@.len() ==> #[trigger] commands.commands@[k].args@.len()
                < usize::MAX,
        !player_command_aborts(views(words@), commands.commands@, auto_pickup_enabled),
    ensures
        player_command_outcome(r, words@, commands.commands@, views(items@), auto_pickup_enabled),
{
    assert(views(words@)[0] == words@[0]@);
    assert(views(words@.drop_first()) =~= views(words@).drop_first());
    match find_player_command(&commands.commands, &words[0]) {
        None => (PlayerCommandResult::NotFound, None),
        Some(k) => {
            let c = &commands.commands[k];
            let args = command_args_of(&c.name, words);
            assert(player_args_for(*c, words@, args@));
            match check_args(&args, &c.args, &c.usage) {
                Err(e) => (PlayerCommandResult::Handled, Some(Effect::Notice(Notice::BadArgs(e)))),
                Ok(()) => {
                    if is_text(&c.name, "autopickup") {
                        (PlayerCommandResult::Handled, autopickup(&args, items, auto_pickup_enabled))
                    } else {
                        (PlayerCommandResult::NotFound, None)
                    }
                },
            }
        },
    }
}

/// Whether the handler aborts on this line (see [`player_command_aborts`]);
/// callers test this before handling the line.
pub fn player_command_line_aborts(
    words: &Vec<String>,
    commands: &PlayerCommands,
    auto_pickup_enabled: bool,
) -> (r: bool)
    requires
        words@.len() >= 1,
        forall|k: int|
            0 <= k < commands.commands@.len() ==> #[trigger] commands.commands@[k].args@.len()
                < usize::MAX,
    ensures
        r == player_command_aborts(views(words@), commands.commands@, auto_pickup_enabled),
{
    assert(views(words@)[0] == words@[0]@);
    assert(views(words@.drop_first()) =~= views(words@).drop_first());
    match find_player_command(&commands.commands, &words[0]) {
        None => false,
        Some(k) => {
            let c = &commands.commands[k];
            let args = command_args_of(&c.name, words);
            let ghost a = views(args@);
            assert(a.len() == args@.len());
            if check_args(&args, &c.args, &c.usage).is_err() || !is_text(&c.name, "autopickup") {
                return false;
            }
            if !auto_pickup_enabled || args.len() >= 2 {
                return false;
            }
            if args.len() == 0 {
                proof {
                    reveal_strlit("list");
                }
                return false;
            }
            assert(a[0] == args@[0]@);
            !(is_text(&args[0], "list") || is_text(&args[0], "clear"))
        },
    }
}

} // verus!
