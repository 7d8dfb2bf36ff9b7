use vstd::prelude::*;

use crate::effects::Notice;
use crate::player_commands::{ArgError, ArgErrorView, ArgType};
use crate::text::{count_text, decimal, signed_decimal, signed_text};

verus! {

/// The name of an argument type as the messages show it.
pub open spec fn arg_type_name(t: ArgType) -> Seq<char> {
    match t {
        ArgType::UInt => "UInt"@,
        ArgType::String => "String"@,
        ArgType::Bool => "Bool"@,
    }
}

/// The text that tells a player why the arguments of a command were refused.
pub open spec fn arg_error_message(e: ArgErrorView) -> Seq<char> {
    match e {
        ArgErrorView::WrongCount { got, expected, usage } => "Wrong number of args. Got "@ + decimal(got)
            + ", expected: "@ + decimal(expected) + ". (usage: \""@ + usage + "\")"@,
        ArgErrorView::TooMany { got, expected, usage } => "Too many args. Got "@ + decimal(got)
            + ", expected: "@ + decimal(expected) + ". (usage: \""@ + usage + "\")"@,
        ArgErrorView::InvalidType { got, expected, usage } => "Invalid arg type. Got "@ + got
            + ", expected: "@ + arg_type_name(expected) + ". (usage: \""@ + usage + "\")"@,
    }
}

/// The text of a server message.
pub open spec fn notice_message(n: Notice) -> Seq<char> {
    match n {
        Notice::BadArgs(e) => arg_error_message(e@),
        Notice::NoItemNamed(s) => "No item found with name \""@ + s@ + "\"."@,
        Notice::NoNpcNamed(s) => "No npc found with name \""@ + s@ + "\"."@,
        Notice::InvalidAutopickupArgument => "Invalid argument. Must be \"list\", \"add\", or \"remove\"."@,
        Notice::UnknownCommand(c) => "Unknown command: "@ + c@,
        Notice::Unimplemented(c) => "Unimplemented command: "@ + c@,
        Notice::NoSuchMap(id) => "Map "@ + signed_decimal(id as int) + " does not exist."@,
        Notice::OfflineKickUnsupported => "Offline kicking not currently supported"@,
        Notice::OfflineRankUnsupported => "Offline rank updating not currently supported"@,
        Notice::LastGuildLeader =>
            "You are the last leader and cannot leave the guild. You must promote someone else to leader first."@,
    }
}

/// The name of an argument type as the messages show it.
fn type_text(t: ArgType) -> (r: String)
    ensures
        r@ == arg_type_name(t),
{
    match t {
        ArgType::UInt => String::from_str("UInt"),
        ArgType::String => String::from_str("String"),
        ArgType::Bool => String::from_str("Bool"),
    }
}

/// `head`, then `middle`, then `usage` in quotes inside brackets.
fn with_usage(head: String, middle: String, usage: &String) -> (r: String)
    ensures
        r@ == head@ + middle@ + ". (usage: \""@ + usage@ + "\")"@,
{
    let r = head.concat(middle.as_str()).concat(". (usage: \"").concat(usage.as_str()).concat("\")");
    r
}

/// The text that tells a player why the arguments of a command were refused.
pub fn arg_error_text(e: &ArgError) -> (r: String)
    ensures
        r@ == arg_error_message(e@),
{
    match e {
        ArgError::WrongCount { got, expected, usage } => {
            let head = String::from_str("Wrong number of args. Got ").concat(count_text(*got).as_str()).concat(", expected: ");
            let r = with_usage(head, count_text(*expected), usage);
            r
        },
        ArgError::TooMany { got, expected, usage } => {
            let head = String::from_str("Too many args. Got ").concat(count_text(*got).as_str()).concat(", expected: ");
            let r = with_usage(head, count_text(*expected), usage);
            r
        },
        ArgError::InvalidType { got, expected, usage } => {
            let head = String::from_str("Invalid arg type. Got ").concat(got.as_str()).concat(", expected: ");
            let r = with_usage(head, type_text(*expected), usage);
            r
        },
    }
}

/// The text of a server message, as the player reads it.
pub fn notice_text(n: &Notice) -> (r: String)
    ensures
        r@ == notice_message(*n),
{
    match n {
        Notice::BadArgs(e) => arg_error_text(e),
        Notice::NoItemNamed(s) => String::from_str("No item found with name \"").concat(s.as_str()).concat("\"."),
        Notice::NoNpcNamed(s) => String::from_str("No npc found with name \"").concat(s.as_str()).concat("\"."),
        Notice::InvalidAutopickupArgument => String::from_str("Invalid argument. Must be \"list\", \"add\", or \"remove\"."),
        Notice::UnknownCommand(c) => String::from_str("Unknown command: ").concat(c.as_str()),
        Notice::Unimplemented(c) => String::from_str("Unimplemented command: ").concat(c.as_str()),
        Notice::NoSuchMap(id) => String::from_str("Map ").concat(signed_text(*id).as_str()).concat(" does not exist."),
        Notice::OfflineKickUnsupported => String::from_str("Offline kicking not currently supported"),
        Notice::OfflineRankUnsupported => String::from_str("Offline rank updating not currently supported"),
        Notice::LastGuildLeader => String::from_str(
            "You are the last leader and cannot leave the guild. You must promote someone else to leader first.",
        ),
    }
}

} // verus!
