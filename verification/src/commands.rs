//! The command registry: an immutable descriptor table built once, with
//! line parsing and help listing on top of it.
//!
//! Each descriptor pairs a name, a description, and a tag selecting the
//! argument parser for that command. The spec table [`spec_table`] fixes
//! the registered set, and every operation's contract is stated over it.

use crate::error::CommandError;
use crate::error::SpecError;
use crate::request::Command;
use crate::request::DebugRequest;
use crate::request::SpecCommand;
use crate::request::SpecRequest;
use crate::scalars::spec_parse_bool;
use crate::scalars::spec_parse_u32;
use crate::text::token_views;
use crate::text::tokens_of;
use vstd::prelude::*;

verus! {

/// Selects the argument parser of one registered command.
#[derive(Clone, Copy, Debug, PartialEq, Eq, Structural)]
pub enum CommandKind {
    Attach,
    SetWorkDirectory,
    Stack,
    Code,
    ClearAllBreakpoints,
    ClearBreakpoint,
    SetBreakpoint,
    Registers,
    Variable,
    Variables,
    SetChip,
    SetProbeNumber,
    StackTrace,
    Read,
    Reset,
    Flash,
    Step,
    Status,
    Exit,
    Continue,
    Halt,
    SetBinary,
}

/// The spec-level descriptor of one command.
pub struct CommandEntry {
    pub name: Seq<char>,
    pub description: Seq<char>,
    pub kind: CommandKind,
}

/// One command descriptor as the registry stores it.
struct CommandInfo {
    name: String,
    description: String,
    kind: CommandKind,
}

impl View for CommandInfo {
    type V = CommandEntry;

    closed spec fn view(&self) -> CommandEntry {
        CommandEntry { name: self.name@, description: self.description@, kind: self.kind }
    }
}

/// The full descriptor table, in registration order.
pub open spec fn spec_table() -> Seq<CommandEntry> {
    seq![
        CommandEntry {
            name: "attach"@,
            description: "Attach to the target"@,
            kind: CommandKind::Attach,
        },
        CommandEntry {
            name: "set-work-directory"@,
            description: "Set the current work directory"@,
            kind: CommandKind::SetWorkDirectory,
        },
        CommandEntry {
            name: "stack"@,
            description: "Prints the current stack values"@,
            kind: CommandKind::Stack,
        },
        CommandEntry {
            name: "code"@,
            description: "Prints the current code"@,
            kind: CommandKind::Code,
        },
        CommandEntry {
            name: "clear-all-breakpoints"@,
            description: "Removes all hardware breakpoints"@,
            kind: CommandKind::ClearAllBreakpoints,
        },
        CommandEntry {
            name: "clear-breakpoint"@,
            description: "Remove a hardware breakpoint"@,
            kind: CommandKind::ClearBreakpoint,
        },
        CommandEntry {
            name: "set-breakpoint"@,
            description: "Set a hardware breakpoint"@,
            kind: CommandKind::SetBreakpoint,
        },
        CommandEntry {
            name: "registers"@,
            description: "Print all register values"@,
            kind: CommandKind::Registers,
        },
        CommandEntry {
            name: "variable"@,
            description: "Print the value of a variable"@,
            kind: CommandKind::Variable,
        },
        CommandEntry {
            name: "variables"@,
            description: "Print all local variables"@,
            kind: CommandKind::Variables,
        },
        CommandEntry {
            name: "set-chip"@,
            description: "Set chip model being used"@,
            kind: CommandKind::SetChip,
        },
        CommandEntry {
            name: "set-probe-number"@,
            description: "Set the probe number to use"@,
            kind: CommandKind::SetProbeNumber,
        },
        CommandEntry {
            name: "stack-trace"@,
            description: "Print stack trace"@,
            kind: CommandKind::StackTrace,
        },
        CommandEntry {
            name: "read"@,
            description: "Read address in memory"@,
            kind: CommandKind::Read,
        },
        CommandEntry {
            name: "reset"@,
            description: "Reset or reset and halt the core"@,
            kind: CommandKind::Reset,
        },
        CommandEntry {
            name: "flash"@,
            description: "Flash target with binary file"@,
            kind: CommandKind::Flash,
        },
        CommandEntry {
            name: "step"@,
            description: "Step one assembly instruction"@,
            kind: CommandKind::Step,
        },
        CommandEntry {
            name: "status"@,
            description: "Print the status of the core"@,
            kind: CommandKind::Status,
        },
        CommandEntry { name: "exit"@, description: "Exit debugger"@, kind: CommandKind::Exit },
        CommandEntry {
            name: "continue"@,
            description: "Continue the program"@,
            kind: CommandKind::Continue,
        },
        CommandEntry { name: "halt"@, description: "Halt the core"@, kind: CommandKind::Halt },
        CommandEntry {
            name: "set-binary"@,
            description: "Set the binary file to debug"@,
            kind: CommandKind::SetBinary,
        },
    ]
}

/// The kind of the first entry of `table` whose name is `name`, if any.
pub open spec fn find_kind(table: Seq<CommandEntry>, name: Seq<char>) -> Option<CommandKind>
    decreases table.len(),
{
    if table.len() == 0 {
        None
    } else if table[0].name == name {
        Some(table[0].kind)
    } else {
        find_kind(table.skip(1), name)
    }
}

/// The kind registered under `name`, if any.
pub open spec fn lookup_kind(name: Seq<char>) -> Option<CommandKind> {
    find_kind(spec_table(), name)
}

/// How many argument tokens a command requires before any optional ones.
pub open spec fn spec_required_args(kind: CommandKind) -> nat {
    match kind {
        CommandKind::SetWorkDirectory => 1,
        CommandKind::ClearBreakpoint => 1,
        CommandKind::SetBreakpoint => 1,
        CommandKind::Variable => 1,
        CommandKind::SetChip => 1,
        CommandKind::SetProbeNumber => 1,
        CommandKind::Read => 1,
        CommandKind::SetBinary => 1,
        _ => 0,
    }
}

/// What each command's parser makes of the argument tokens that followed
/// the command name. Excess trailing tokens are ignored.
pub open spec fn spec_parse_args(kind: CommandKind, args: Seq<Seq<char>>) -> Result<
    SpecRequest,
    SpecError,
> {
    match kind {
        CommandKind::Attach => Ok(SpecRequest::Attach { reset: false, reset_and_halt: false }),
        CommandKind::SetWorkDirectory => {
            if args.len() > 0 {
                Ok(SpecRequest::SetCWD { cwd: args[0] })
            } else {
                Err(SpecError::MissingArgument)
            }
        },
        CommandKind::Stack => Ok(SpecRequest::Stack),
        CommandKind::Code => Ok(SpecRequest::Code),
        CommandKind::ClearAllBreakpoints => Ok(SpecRequest::ClearAllBreakpoints),
        CommandKind::ClearBreakpoint => {
            if args.len() > 0 {
                match spec_parse_u32(args[0]) {
                    Ok(address) => Ok(SpecRequest::ClearBreakpoint { address }),
                    Err(cause) => Err(SpecError::MalformedNumeric { cause }),
                }
            } else {
                Err(SpecError::MissingArgument)
            }
        },
        CommandKind::SetBreakpoint => {
            if args.len() > 0 {
                match spec_parse_u32(args[0]) {
                    Ok(address) => Ok(
                        SpecRequest::SetBreakpoint {
                            address,
                            source_file: if args.len() >= 2 {
                                Some(args[1])
                            } else {
                                None
                            },
                        },
                    ),
                    Err(cause) => Err(SpecError::MalformedNumeric { cause }),
                }
            } else {
                Err(SpecError::MissingArgument)
            }
        },
        CommandKind::Registers => Ok(SpecRequest::Registers),
        CommandKind::Variable => {
            if args.len() > 0 {
                Ok(SpecRequest::Variable { name: args[0] })
            } else {
                Err(SpecError::MissingArgument)
            }
        },
        CommandKind::Variables => Ok(SpecRequest::Variables),
        CommandKind::SetChip => {
            if args.len() > 0 {
                Ok(SpecRequest::SetChip { chip: args[0] })
            } else {
                Err(SpecError::MissingArgument)
            }
        },
        CommandKind::SetProbeNumber => {
            if args.len() > 0 {
                match spec_parse_u32(args[0]) {
                    Ok(number) => Ok(SpecRequest::SetProbeNumber { number: number as usize }),
                    Err(cause) => Err(SpecError::MalformedNumeric { cause }),
                }
            } else {
                Err(SpecError::MissingArgument)
            }
        },
        CommandKind::StackTrace => Ok(SpecRequest::StackTrace),
        CommandKind::Read => {
            if args.len() > 0 {
                match spec_parse_u32(args[0]) {
                    Ok(address) => {
                        if args.len() >= 2 {
                            match spec_parse_u32(args[1]) {
                                Ok(size) => Ok(
                                    SpecRequest::Read { address, byte_size: size as usize },
                                ),
                                Err(cause) => Err(SpecError::MalformedNumeric { cause }),
                            }
                        } else {
                            Ok(SpecRequest::Read { address, byte_size: 4 })
                        }
                    },
                    Err(cause) => Err(SpecError::MalformedNumeric { cause }),
                }
            } else {
                Err(SpecError::MissingArgument)
            }
        },
        CommandKind::Reset => {
            if args.len() > 0 {
                match spec_parse_bool(args[0]) {
                    Some(reset_and_halt) => Ok(SpecRequest::Reset { reset_and_halt }),
                    None => Err(SpecError::MalformedBoolean),
                }
            } else {
                Ok(SpecRequest::Reset { reset_and_halt: false })
            }
        },
        CommandKind::Flash => {
            if args.len() > 0 {
                match spec_parse_bool(args[0]) {
                    Some(reset_and_halt) => Ok(SpecRequest::Flash { reset_and_halt }),
                    None => Err(SpecError::MalformedBoolean),
                }
            } else {
                Ok(SpecRequest::Flash { reset_and_halt: false })
            }
        },
        CommandKind::Step => Ok(SpecRequest::Step),
        CommandKind::Status => Ok(SpecRequest::Status),
        CommandKind::Exit => Ok(SpecRequest::Exit),
        CommandKind::Continue => Ok(SpecRequest::Continue),
        CommandKind::Halt => Ok(SpecRequest::Halt),
        CommandKind::SetBinary => {
            if args.len() > 0 {
                Ok(SpecRequest::SetBinary { path: args[0] })
            } else {
                Err(SpecError::MissingArgument)
            }
        },
    }
}

/// What one parse attempt makes of a whole input line.
pub open spec fn spec_parse_command(line: Seq<char>) -> Result<SpecCommand, SpecError> {
    let tokens = tokens_of(line);
    if tokens.len() == 0 {
        Err(SpecError::EmptyCommand)
    } else {
        match lookup_kind(tokens[0]) {
            None => Err(SpecError::UnknownCommand { name: tokens[0] }),
            Some(kind) => match spec_parse_args(kind, tokens.skip(1)) {
                Ok(request) => Ok(SpecCommand::Request(request)),
                Err(e) => Err(e),
            },
        }
    }
}

/// The help listing for `table`: a header, then one line per entry, in
/// order, each as a newline plus tab-indented `- <name>: <description>`.
pub open spec fn spec_help_text(table: Seq<CommandEntry>) -> Seq<char>
    decreases table.len(),
{
    if table.len() == 0 {
        "Available commands:"@
    } else {
        spec_help_text(table.drop_last()) + "\n\t- "@ + table.last().name + ": "@
            + table.last().description
    }
}

/// What `check_if_help` makes of a line: the listing when the first token
/// is exactly `help`, nothing otherwise.
pub open spec fn spec_check_if_help(line: Seq<char>) -> Option<Seq<char>> {
    let tokens = tokens_of(line);
    if tokens.len() > 0 && tokens[0] == "help"@ {
        Some(spec_help_text(spec_table()))
    } else {
        None
    }
}

/// The registered command names are pairwise distinct, so the first-match
/// lookup is equivalent to an only-match lookup, and the help listing
/// holds no duplicates.
pub proof fn lemma_command_names_distinct()
    ensures
        forall|i: int, j: int|
            0 <= i < j < spec_table().len() ==> spec_table()[i].name != spec_table()[j].name,
{
    reveal_strlit("attach");
    reveal_strlit("set-work-directory");
    reveal_strlit("stack");
    reveal_strlit("code");
    reveal_strlit("clear-all-breakpoints");
    reveal_strlit("clear-breakpoint");
    reveal_strlit("set-breakpoint");
    reveal_strlit("registers");
    reveal_strlit("variable");
    reveal_strlit("variables");
    reveal_strlit("set-chip");
    reveal_strlit("set-probe-number");
    reveal_strlit("stack-trace");
    reveal_strlit("read");
    reveal_strlit("reset");
    reveal_strlit("flash");
    reveal_strlit("step");
    reveal_strlit("status");
    reveal_strlit("exit");
    reveal_strlit("continue");
    reveal_strlit("halt");
    reveal_strlit("set-binary");
    assert forall|i: int, j: int|
        0 <= i < j < spec_table().len() implies spec_table()[i].name != spec_table()[j].name by {
        let n1 = spec_table()[i].name;
        let n2 = spec_table()[j].name;
        assert(n1.len() != n2.len() || n1[0] != n2[0]);
    }
}

proof fn lemma_find_kind_match(table: Seq<CommandEntry>, k: int)
    requires
        0 <= k < table.len(),
        forall|i: int, j: int| 0 <= i < j < table.len() ==> table[i].name != table[j].name,
    ensures
        find_kind(table, table[k].name) == Some(table[k].kind),
    decreases table.len(),
{
    if k > 0 {
        assert forall|i: int, j: int|
            0 <= i < j < table.skip(1).len() implies table.skip(1)[i].name
            != table.skip(1)[j].name by {
            assert(table.skip(1)[i] == table[i + 1]);
            assert(table.skip(1)[j] == table[j + 1]);
        }
        lemma_find_kind_match(table.skip(1), k - 1);
        assert(table.skip(1)[k - 1] == table[k]);
    }
}

/// Because the names are distinct, the first-match lookup agrees with any
/// match: looking up the name of any registered entry yields that entry's
/// kind.
pub proof fn lemma_lookup_is_only_match(k: int)
    requires
        0 <= k < spec_table().len(),
    ensures
        lookup_kind(spec_table()[k].name) == Some(spec_table()[k].kind),
{
    lemma_command_names_distinct();
    lemma_find_kind_match(spec_table(), k);
}

/// Every command that requires an argument rejects a shorter argument
/// list with `MissingArgument`, whatever the tokens hold.
pub proof fn lemma_missing_argument(kind: CommandKind, args: Seq<Seq<char>>)
    requires
        args.len() < spec_required_args(kind),
    ensures
        spec_parse_args(kind, args) == Err::<SpecRequest, SpecError>(SpecError::MissingArgument),
{
}

/// The registry of command descriptors, built once and never mutated.
pub struct Commands {
    commands: Vec<CommandInfo>,
}

impl Commands {
    /// The table holds exactly the registered descriptors, in order.
    pub closed spec fn wf(&self) -> bool {
        self.commands@.map_values(|c: CommandInfo| c@) == spec_table()
    }

    /// Builds the registry with every supported command registered.
    pub fn new() -> (registry: Commands)
        ensures
            registry.wf(),
    {
        let commands: Vec<CommandInfo> = vec![
            CommandInfo {
                name: "attach".to_owned(),
                description: "Attach to the target".to_owned(),
                kind: CommandKind::Attach,
            },
            CommandInfo {
                name: "set-work-directory".to_owned(),
                description: "Set the current work directory".to_owned(),
                kind: CommandKind::SetWorkDirectory,
            },
            CommandInfo {
                name: "stack".to_owned(),
                description: "Prints the current stack values".to_owned(),
                kind: CommandKind::Stack,
            },
            CommandInfo {
                name: "code".to_owned(),
                description: "Prints the current code".to_owned(),
                kind: CommandKind::Code,
            },
            CommandInfo {
                name: "clear-all-breakpoints".to_owned(),
                description: "Removes all hardware breakpoints".to_owned(),
                kind: CommandKind::ClearAllBreakpoints,
            },
            CommandInfo {
                name: "clear-breakpoint".to_owned(),
                description: "Remove a hardware breakpoint".to_owned(),
                kind: CommandKind::ClearBreakpoint,
            },
            CommandInfo {
                name: "set-breakpoint".to_owned(),
                description: "Set a hardware breakpoint".to_owned(),
                kind: CommandKind::SetBreakpoint,
            },
            CommandInfo {
                name: "registers".to_owned(),
                description: "Print all register values".to_owned(),
                kind: CommandKind::Registers,
            },
            CommandInfo {
                name: "variable".to_owned(),
                description: "Print the value of a variable".to_owned(),
                kind: CommandKind::Variable,
            },
            CommandInfo {
                name: "variables".to_owned(),
                description: "Print all local variables".to_owned(),
                kind: CommandKind::Variables,
            },
            CommandInfo {
                name: "set-chip".to_owned(),
                description: "Set chip model being used".to_owned(),
                kind: CommandKind::SetChip,
            },
            CommandInfo {
                name: "set-probe-number".to_owned(),
                description: "Set the probe number to use".to_owned(),
                kind: CommandKind::SetProbeNumber,
            },
            CommandInfo {
                name: "stack-trace".to_owned(),
                description: "Print stack trace".to_owned(),
                kind: CommandKind::StackTrace,
            },
            CommandInfo {
                name: "read".to_owned(),
                description: "Read address in memory".to_owned(),
                kind: CommandKind::Read,
            },
            CommandInfo {
                name: "reset".to_owned(),
                description: "Reset or reset and halt the core".to_owned(),
                kind: CommandKind::Reset,
            },
            CommandInfo {
                name: "flash".to_owned(),
                description: "Flash target with binary file".to_owned(),
                kind: CommandKind::Flash,
            },
            CommandInfo {
                name: "step".to_owned(),
                description: "Step one assembly instruction".to_owned(),
                kind: CommandKind::Step,
            },
            CommandInfo {
                name: "status".to_owned(),
                description: "Print the status of the core".to_owned(),
                kind: CommandKind::Status,
            },
            CommandInfo {
                name: "exit".to_owned(),
                description: "Exit debugger".to_owned(),
                kind: CommandKind::Exit,
            },
            CommandInfo {
                name: "continue".to_owned(),
                description: "Continue the program".to_owned(),
                kind: CommandKind::Continue,
            },
            CommandInfo {
                name: "halt".to_owned(),
                description: "Halt the core".to_owned(),
                kind: CommandKind::Halt,
            },
            CommandInfo {
                name: "set-binary".to_owned(),
                description: "Set the binary file to debug".to_owned(),
                kind: CommandKind::SetBinary,
            },
        ];
        let registry = Commands { commands };
        proof {
            assert(registry.commands@.map_values(|c: CommandInfo| c@) =~~= spec_table());
        }
        registry
    }

    /// Finds the kind registered under `name`, scanning in registration
    /// order; the names are distinct, so first match is only match.
    fn lookup(&self, name: &String) -> (r: Option<CommandKind>)
        requires
            self.wf(),
        ensures
            r == lookup_kind(name@),
    {
        let ghost table = spec_table();
        proof {
            assert(table.skip(0) =~= table);
        }
        let mut idx: usize = 0;
        while idx < self.commands.len()
            invariant
                self.wf(),
                idx <= self.commands@.len(),
                self.commands@.len() == table.len(),
                table == spec_table(),
                lookup_kind(name@) == find_kind(table.skip(idx as int), name@),
            decreases self.commands@.len() - idx,
        {
            proof {
                assert(self.commands@.map_values(|c: CommandInfo| c@)[idx as int]
                    == self.commands@[idx as int]@);
                assert(table.skip(idx as int)[0] == table[idx as int]);
            }
            if self.commands[idx].name == *name {
                return Some(self.commands[idx].kind);
            }
            proof {
                assert(table.skip(idx as int).skip(1) =~= table.skip(idx + 1));
            }
            idx = idx + 1;
        }
        proof {
            assert(table.skip(idx as int) =~= Seq::<CommandEntry>::empty());
        }
        None
    }

    /// Parses one line of input into a request envelope: tokenize, look
    /// the first token up, hand the rest to that command's parser.
    pub fn parse_command(&self, line: &str) -> (r: Result<Command, CommandError>)
        requires
            self.wf(),
        ensures
            r matches Ok(command) ==> spec_parse_command(line@) == Ok::<
                SpecCommand,
                SpecError,
            >(command@),
            r matches Err(e) ==> spec_parse_command(line@) == Err::<SpecCommand, SpecError>(e@),
    {
        let tokens = crate::text::tokenize(line);
        if tokens.len() == 0 {
            return Err(CommandError::EmptyCommand);
        }
        let kind = match self.lookup(&tokens[0]) {
            Some(kind) => kind,
            None => {
                return Err(CommandError::UnknownCommand { name: tokens[0].clone() });
            },
        };
        let mut args: Vec<String> = Vec::new();
        let mut idx: usize = 1;
        proof {
            assert(args@ =~= tokens@.subrange(1, 1));
        }
        while idx < tokens.len()
            invariant
                1 <= idx <= tokens@.len(),
                args@ == tokens@.subrange(1, idx as int),
            decreases tokens@.len() - idx,
        {
            args.push(tokens[idx].clone());
            proof {
                assert(args@ =~= tokens@.subrange(1, idx + 1));
            }
            idx = idx + 1;
        }
        proof {
            assert(token_views(args@) =~= tokens_of(line@).skip(1));
        }
        match parse_args(kind, &args) {
            Ok(request) => Ok(Command::Request(request)),
            Err(e) => Err(e),
        }
    }

    /// Answers the reserved pseudo-command `help` with the listing of all
    /// registered commands; any other line is not for this method.
    pub fn check_if_help(&self, line: &str) -> (r: Option<String>)
        requires
            self.wf(),
        ensures
            r matches Some(text) ==> spec_check_if_help(line@) == Some(text@),
            r is None ==> spec_check_if_help(line@) is None,
    {
        let tokens = crate::text::tokenize(line);
        if tokens.len() > 0 && crate::text::str_eq(tokens[0].as_str(), "help") {
            let ghost table = spec_table();
            let mut text: String = "Available commands:".to_owned();
            proof {
                assert(table.take(0) =~= Seq::<CommandEntry>::empty());
            }
            let mut idx: usize = 0;
            while idx < self.commands.len()
                invariant
                    self.wf(),
                    idx <= self.commands@.len(),
                    self.commands@.len() == table.len(),
                    table == spec_table(),
                    text@ == spec_help_text(table.take(idx as int)),
                decreases self.commands@.len() - idx,
            {
                proof {
                    assert(self.commands@.map_values(|c: CommandInfo| c@)[idx as int]
                        == self.commands@[idx as int]@);
                }
                text.append("\n\t- ");
                text.append(self.commands[idx].name.as_str());
                text.append(": ");
                text.append(self.commands[idx].description.as_str());
                proof {
                    assert(table.take(idx + 1).drop_last() =~= table.take(idx as int));
                    assert(table.take(idx + 1).last() == table[idx as int]);
                }
                idx = idx + 1;
            }
            proof {
                assert(table.take(table.len() as int) =~= table);
            }
            Some(text)
        } else {
            None
        }
    }
}

/// Runs the parser selected by `kind` on the argument tokens.
fn parse_args(kind: CommandKind, args: &Vec<String>) -> (r: Result<DebugRequest, CommandError>)
    ensures
        r matches Ok(request) ==> spec_parse_args(kind, token_views(args@)) == Ok::<
            SpecRequest,
            SpecError,
        >(request@),
        r matches Err(e) ==> spec_parse_args(kind, token_views(args@)) == Err::<
            SpecRequest,
            SpecError,
        >(e@),
{
    match kind {
        CommandKind::Attach => Ok(DebugRequest::Attach { reset: false, reset_and_halt: false }),
        CommandKind::SetWorkDirectory => {
            if args.len() > 0 {
                Ok(DebugRequest::SetCWD { cwd: args[0].clone() })
            } else {
                Err(CommandError::MissingArgument)
            }
        },
        CommandKind::Stack => Ok(DebugRequest::Stack),
        CommandKind::Code => Ok(DebugRequest::Code),
        CommandKind::ClearAllBreakpoints => Ok(DebugRequest::ClearAllBreakpoints),
        CommandKind::ClearBreakpoint => {
            if args.len() > 0 {
                match crate::scalars::parse_u32_from_str(args[0].as_str()) {
                    Ok(address) => Ok(DebugRequest::ClearBreakpoint { address }),
                    Err(e) => Err(e),
                }
            } else {
                Err(CommandError::MissingArgument)
            }
        },
        CommandKind::SetBreakpoint => {
            if args.len() > 0 {
                match crate::scalars::parse_u32_from_str(args[0].as_str()) {
                    Ok(address) => {
                        let source_file = if args.len() >= 2 {
                            Some(args[1].clone())
                        } else {
                            None
                        };
                        Ok(DebugRequest::SetBreakpoint { address, source_file })
                    },
                    Err(e) => Err(e),
                }
            } else {
                Err(CommandError::MissingArgument)
            }
        },
        CommandKind::Registers => Ok(DebugRequest::Registers),
        CommandKind::Variable => {
            if args.len() > 0 {
                Ok(DebugRequest::Variable { name: args[0].clone() })
            } else {
                Err(CommandError::MissingArgument)
            }
        },
        CommandKind::Variables => Ok(DebugRequest::Variables),
        CommandKind::SetChip => {
            if args.len() > 0 {
                Ok(DebugRequest::SetChip { chip: args[0].clone() })
            } else {
                Err(CommandError::MissingArgument)
            }
        },
        CommandKind::SetProbeNumber => {
            if args.len() > 0 {
                match crate::scalars::parse_u32_from_str(args[0].as_str()) {
                    Ok(number) => Ok(DebugRequest::SetProbeNumber { number: number as usize }),
                    Err(e) => Err(e),
                }
            } else {
                Err(CommandError::MissingArgument)
            }
        },
        CommandKind::StackTrace => Ok(DebugRequest::StackTrace),
        CommandKind::Read => {
            if args.len() > 0 {
                match crate::scalars::parse_u32_from_str(args[0].as_str()) {
                    Ok(address) => {
                        if args.len() >= 2 {
                            match crate::scalars::parse_u32_from_str(args[1].as_str()) {
                                Ok(size) => Ok(
                                    DebugRequest::Read { address, byte_size: size as usize },
                                ),
                                Err(e) => Err(e),
                            }
                        } else {
                            Ok(DebugRequest::Read { address, byte_size: 4 })
                        }
                    },
                    Err(e) => Err(e),
                }
            } else {
                Err(CommandError::MissingArgument)
            }
        },
        CommandKind::Reset => {
            if args.len() > 0 {
                match crate::scalars::parse_bool(args[0].as_str()) {
                    Ok(reset_and_halt) => Ok(DebugRequest::Reset { reset_and_halt }),
                    Err(e) => Err(e),
                }
            } else {
                Ok(DebugRequest::Reset { reset_and_halt: false })
            }
        },
        CommandKind::Flash => {
            if args.len() > 0 {
                match crate::scalars::parse_bool(args[0].as_str()) {
                    Ok(reset_and_halt) => Ok(DebugRequest::Flash { reset_and_halt }),
                    Err(e) => Err(e),
                }
            } else {
                Ok(DebugRequest::Flash { reset_and_halt: false })
            }
        },
        CommandKind::Step => Ok(DebugRequest::Step),
        CommandKind::Status => Ok(DebugRequest::Status),
        CommandKind::Exit => Ok(DebugRequest::Exit),
        CommandKind::Continue => Ok(DebugRequest::Continue),
        CommandKind::Halt => Ok(DebugRequest::Halt),
        CommandKind::SetBinary => {
            if args.len() > 0 {
                Ok(DebugRequest::SetBinary { path: args[0].clone() })
            } else {
                Err(CommandError::MissingArgument)
            }
        },
    }
}

} // verus!
