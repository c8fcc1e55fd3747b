//! The command-line grammar as data: every command with its arguments, as
//! the argument parser is told about them, and the mathematical content of
//! such a tree.

use vstd::prelude::*;

verus! {

/// How an argument takes its value.
#[derive(Clone, Copy, Debug, PartialEq, Eq, Structural)]
pub enum ArgKind {
    /// A switch without a value.
    Flag,
    /// An option with a text value.
    Text,
    /// An option with a non-negative integer value.
    Count,
    /// A positional text value.
    Positional,
}

/// One argument of a command.
#[derive(Clone, Copy, Debug)]
pub struct ArgSpec {
    /// The name under which the parsed value is found.
    pub id: &'static str,
    /// The long option name, without the leading `--`.
    pub long: Option<&'static str>,
    /// The short option letter.
    pub short: Option<char>,
    /// The placeholder shown for the value in help.
    pub value_name: Option<&'static str>,
    /// The value used when the argument is absent.
    pub default: Option<&'static str>,
    pub kind: ArgKind,
    pub required: bool,
    /// The argument is also accepted by every subcommand.
    pub global: bool,
    /// The id of an argument that may not be given together with this one.
    pub conflicts_with: Option<&'static str>,
    pub help: &'static str,
}

/// A command with its arguments and subcommands.
#[derive(Debug)]
pub struct CommandSpec {
    pub name: &'static str,
    pub about: &'static str,
    pub args: Vec<ArgSpec>,
    pub subcommands: Vec<CommandSpec>,
    /// A subcommand must be given.
    pub subcommand_required: bool,
}

/// The view of an optional string slice.
pub open spec fn opt_name(s: Option<&'static str>) -> Option<Seq<char>> {
    match s {
        Some(t) => Some(t@),
        None => None,
    }
}

/// The content of an [`ArgSpec`].
pub struct ArgV {
    pub id: Seq<char>,
    pub long: Option<Seq<char>>,
    pub short: Option<char>,
    pub value_name: Option<Seq<char>>,
    pub default: Option<Seq<char>>,
    pub kind: ArgKind,
    pub required: bool,
    pub global: bool,
    pub conflicts_with: Option<Seq<char>>,
    pub help: Seq<char>,
}

impl View for ArgSpec {
    type V = ArgV;

    open spec fn view(&self) -> ArgV {
        ArgV {
            id: self.id@,
            long: opt_name(self.long),
            short: self.short,
            value_name: opt_name(self.value_name),
            default: opt_name(self.default),
            kind: self.kind,
            required: self.required,
            global: self.global,
            conflicts_with: opt_name(self.conflicts_with),
            help: self.help@,
        }
    }
}

/// The content of a [`CommandSpec`].
pub struct CommandV {
    pub name: Seq<char>,
    pub about: Seq<char>,
    pub args: Seq<ArgV>,
    pub subcommands: Seq<CommandV>,
    pub subcommand_required: bool,
}

/// The views of a list of arguments.
pub open spec fn args_view(s: Seq<ArgSpec>) -> Seq<ArgV> {
    s.map_values(|a: ArgSpec| a@)
}

/// The views of a list of commands.
pub open spec fn commands_view(s: Seq<CommandSpec>) -> Seq<CommandV>
    decreases s, 1int,
{
    if s.len() == 0 {
        Seq::empty()
    } else {
        seq![s[0].view()] + commands_view(s.subrange(1, s.len() as int))
    }
}

impl View for CommandSpec {
    type V = CommandV;

    open spec fn view(&self) -> CommandV
        decreases *self, 0int,
    {
        CommandV {
            name: self.name@,
            about: self.about@,
            args: args_view(self.args@),
            subcommands: commands_view(self.subcommands@),
            subcommand_required: self.subcommand_required,
        }
    }
}

/// The views of a list of commands, element by element.
pub proof fn lemma_commands_view(s: Seq<CommandSpec>)
    ensures
        commands_view(s).len() == s.len(),
        forall|i: int| 0 <= i < s.len() ==> #[trigger] commands_view(s)[i] == s[i].view(),
    decreases s.len(),
{
    if s.len() > 0 {
        let t = s.subrange(1, s.len() as int);
        lemma_commands_view(t);
        assert(commands_view(s) == seq![s[0].view()] + commands_view(t));
        assert forall|i: int| 0 <= i < s.len() implies #[trigger] commands_view(s)[i] == s[i].view() by {
            if i > 0 {
                assert(t[i - 1] == s[i]);
            }
        }
    }
}

} // verus!
