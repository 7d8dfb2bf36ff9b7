use vstd::prelude::*;

use crate::text::{bool_of, parse_bool, parse_u32, u32_of, views};

verus! {

/// The kind of value a command argument takes.
#[derive(Debug, Clone, Copy, PartialEq, Eq, Structural)]
pub enum ArgType {
    UInt,
    String,
    Bool,
}

/// One declared argument of a command.
#[derive(Debug, Clone, Copy, PartialEq, Eq, Structural)]
pub struct Arg {
    pub arg_type: ArgType,
    pub required: bool,
}

/// A chat command that players may type after `#`.
#[derive(Debug, Clone)]
pub struct Command {
    pub name: String,
    pub usage: String,
    pub alias: String,
    pub args: Vec<Arg>,
}

/// The configured player commands.
#[derive(Debug, Clone)]
pub struct PlayerCommands {
    pub commands: Vec<Command>,
}

impl PlayerCommands {
    /// No commands at all.
    pub fn default() -> (r: PlayerCommands)
        ensures
            r.commands@.len() == 0,
    {
        PlayerCommands { commands: Vec::new() }
    }
}

/// Why the arguments typed for a command were refused; each carries what the
/// error message shows.
#[derive(Debug, Clone, PartialEq, Eq)]
pub enum ArgError {
    /// Fewer arguments than the command requires.
    WrongCount { got: usize, expected: usize, usage: String },
    /// More arguments than the command declares.
    TooMany { got: usize, expected: usize, usage: String },
    /// An argument that does not read as its declared type.
    InvalidType { got: String, expected: ArgType, usage: String },
}

/// An [`ArgError`] with its texts as character sequences.
pub enum ArgErrorView {
    WrongCount { got: nat, expected: nat, usage: Seq<char> },
    TooMany { got: nat, expected: nat, usage: Seq<char> },
    InvalidType { got: Seq<char>, expected: ArgType, usage: Seq<char> },
}

impl ArgError {
    pub open spec fn view(self) -> ArgErrorView {
        match self {
            ArgError::WrongCount { got, expected, usage } => ArgErrorView::WrongCount {
                got: got as nat,
                expected: expected as nat,
                usage: usage@,
            },
            ArgError::TooMany { got, expected, usage } => ArgErrorView::TooMany {
                got: got as nat,
                expected: expected as nat,
                usage: usage@,
            },
            ArgError::InvalidType { got, expected, usage } => ArgErrorView::InvalidType {
                got: got@,
                expected,
                usage: usage@,
            },
        }
    }
}

/// The verdict of a check, with the error's texts as character sequences.
pub open spec fn verdict_view(r: Result<(), ArgError>) -> Result<(), ArgErrorView> {
    match r {
        Ok(()) => Ok(()),
        Err(e) => Err(e.view()),
    }
}

/// How many of the declared arguments are required.
pub open spec fn required_count(args: Seq<Arg>) -> nat
    decreases args.len(),
{
    if args.len() == 0 {
        0
    } else {
        required_count(args.drop_last()) + if args.last().required {
            1nat
        } else {
            0nat
        }
    }
}

/// Whether a typed argument reads as the declared type.
pub open spec fn arg_fits(raw: Seq<char>, arg_type: ArgType) -> bool {
    match arg_type {
        ArgType::UInt => u32_of(raw) is Some,
        ArgType::String => true,
        ArgType::Bool => bool_of(raw) is Some,
    }
}

/// Whether each of the first `n` typed arguments reads as its declared type.
pub open spec fn args_fit_upto(args: Seq<Seq<char>>, decl: Seq<Arg>, n: int) -> bool {
    forall|i: int| 0 <= i < n ==> arg_fits(#[trigger] args[i], decl[i].arg_type)
}

/// Argument `i` is the first typed argument that does not fit its declaration.
pub open spec fn first_misfit(args: Seq<Seq<char>>, decl: Seq<Arg>, i: int) -> bool {
    0 <= i < args.len() && !arg_fits(args[i], decl[i].arg_type) && args_fit_upto(args, decl, i)
}

/// The verdict on the arguments typed for a command: the count is checked
/// first (too few, then too many), then each argument in order, and the first
/// one that does not fit is reported.
pub open spec fn validation(args: Seq<Seq<char>>, decl: Seq<Arg>, usage: Seq<char>) -> Result<
    (),
    ArgErrorView,
> {
    if args.len() < required_count(decl) {
        Err(ArgErrorView::WrongCount { got: args.len(), expected: required_count(decl), usage })
    } else if args.len() > decl.len() {
        Err(ArgErrorView::TooMany { got: args.len(), expected: decl.len(), usage })
    } else if args_fit_upto(args, decl, args.len() as int) {
        Ok(())
    } else {
        let i = choose|i: int| first_misfit(args, decl, i);
        Err(ArgErrorView::InvalidType { got: args[i], expected: decl[i].arg_type, usage })
    }
}

/// Whether a typed argument reads as the declared type.
pub fn arg_type_fits(raw: &String, arg_type: ArgType) -> (r: bool)
    ensures
        r == arg_fits(raw@, arg_type),
{
    match arg_type {
        ArgType::UInt => parse_u32(raw.as_str()).is_some(),
        ArgType::String => true,
        ArgType::Bool => parse_bool(raw.as_str()).is_some(),
    }
}

/// Checks the arguments typed for `command` against its declaration.
pub fn validate_args(args: &Vec<String>, command: &Command) -> (r: Result<(), ArgError>)
    requires
        command.args@.len() < usize::MAX,
    ensures
        verdict_view(r) == validation(views(args@), command.args@, command.usage@),
{
    check_args(args, &command.args, &command.usage)
}

/// Checks typed arguments against declared ones; `usage` is quoted in errors.
pub fn check_args(args: &Vec<String>, decl: &Vec<Arg>, usage: &String) -> (r: Result<(), ArgError>)
    requires
        decl@.len() < usize::MAX,
    ensures
        verdict_view(r) == validation(views(args@), decl@, usage@),
{
    let mut required: usize = 0;
    let mut k: usize = 0;
    while k < decl.len()
        invariant
            k <= decl@.len() < usize::MAX,
            required == required_count(decl@.take(k as int)),
            required <= k,
        decreases decl@.len() - k,
    {
        assert(decl@.take(k + 1).drop_last() =~= decl@.take(k as int));
        if decl[k].required {
            required = required + 1;
        }
        k = k + 1;
    }
    assert(decl@.take(k as int) =~= decl@);
    if args.len() < required {
        return Err(
            ArgError::WrongCount {
                got: args.len(),
                expected: required,
                usage: usage.clone(),
            },
        );
    }
    if args.len() > decl.len() {
        return Err(
            ArgError::TooMany {
                got: args.len(),
                expected: decl.len(),
                usage: usage.clone(),
            },
        );
    }
    let mut i: usize = 0;
    while i < args.len()
        invariant
            i <= args@.len() <= decl@.len(),
            args@.len() >= required_count(decl@),
            args_fit_upto(views(args@), decl@, i as int),
        decreases args@.len() - i,
    {
        let arg = decl[i];
        if !arg_type_fits(&args[i], arg.arg_type) {
            let ghost a = views(args@);
            assert(a[i as int] == args@[i as int]@);
            assert(first_misfit(a, decl@, i as int));
            let ghost j = choose|j: int| first_misfit(a, decl@, j);
            proof {
                if j < i {
                    assert(arg_fits(a[j], decl@[j].arg_type));
                } else if j > i {
                    assert(arg_fits(a[i as int], decl@[i as int].arg_type));
                }
                assert(j == i);
            }
            let got = args[i].clone();
            let usage = usage.clone();
            return Err(ArgError::InvalidType { got, expected: arg.arg_type, usage });
        }
        i = i + 1;
    }
    Ok(())
}

} // verus!
