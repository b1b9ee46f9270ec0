//! The typed requests a parsed line produces.
//!
//! A [`DebugRequest`] is a closed set of variants, one per supported
//! operation, carrying only the fields that operation needs. A successful
//! parse wraps it in the [`Command`] envelope. The spec-level mirrors hold
//! the same data over `Seq<char>`.

use vstd::prelude::*;

verus! {

/// One validated instruction for the external debug-session executor.
#[derive(Debug, PartialEq, Eq)]
pub enum DebugRequest {
    /// Attach to the target with fixed flags.
    Attach { reset: bool, reset_and_halt: bool },
    /// Set the current work directory.
    SetCWD { cwd: String },
    /// Print the current stack values.
    Stack,
    /// Print the current code.
    Code,
    /// Remove all hardware breakpoints.
    ClearAllBreakpoints,
    /// Remove the hardware breakpoint at an address.
    ClearBreakpoint { address: u32 },
    /// Set a hardware breakpoint, optionally tied to a source file.
    SetBreakpoint { address: u32, source_file: Option<String> },
    /// Print all register values.
    Registers,
    /// Print the value of one variable.
    Variable { name: String },
    /// Print all local variables.
    Variables,
    /// Select the chip model in use.
    SetChip { chip: String },
    /// Select which probe to use.
    SetProbeNumber { number: usize },
    /// Print a stack trace.
    StackTrace,
    /// Read memory at an address.
    Read { address: u32, byte_size: usize },
    /// Reset the core, optionally halting it afterwards.
    Reset { reset_and_halt: bool },
    /// Flash the target, optionally halting it after the reset.
    Flash { reset_and_halt: bool },
    /// Step one assembly instruction.
    Step,
    /// Print the status of the core.
    Status,
    /// Exit the debugger.
    Exit,
    /// Continue the program.
    Continue,
    /// Halt the core.
    Halt,
    /// Select the binary file to debug.
    SetBinary { path: String },
}

/// The spec-level value of a [`DebugRequest`].
pub enum SpecRequest {
    Attach { reset: bool, reset_and_halt: bool },
    SetCWD { cwd: Seq<char> },
    Stack,
    Code,
    ClearAllBreakpoints,
    ClearBreakpoint { address: u32 },
    SetBreakpoint { address: u32, source_file: Option<Seq<char>> },
    Registers,
    Variable { name: Seq<char> },
    Variables,
    SetChip { chip: Seq<char> },
    SetProbeNumber { number: usize },
    StackTrace,
    Read { address: u32, byte_size: usize },
    Reset { reset_and_halt: bool },
    Flash { reset_and_halt: bool },
    Step,
    Status,
    Exit,
    Continue,
    Halt,
    SetBinary { path: Seq<char> },
}

impl View for DebugRequest {
    type V = SpecRequest;

    open spec fn view(&self) -> SpecRequest {
        match self {
            DebugRequest::Attach { reset, reset_and_halt } => SpecRequest::Attach {
                reset: *reset,
                reset_and_halt: *reset_and_halt,
            },
            DebugRequest::SetCWD { cwd } => SpecRequest::SetCWD { cwd: cwd@ },
            DebugRequest::Stack => SpecRequest::Stack,
            DebugRequest::Code => SpecRequest::Code,
            DebugRequest::ClearAllBreakpoints => SpecRequest::ClearAllBreakpoints,
            DebugRequest::ClearBreakpoint { address } => SpecRequest::ClearBreakpoint {
                address: *address,
            },
            DebugRequest::SetBreakpoint { address, source_file } => SpecRequest::SetBreakpoint {
                address: *address,
                source_file: match source_file {
                    Some(path) => Some(path@),
                    None => None,
                },
            },
            DebugRequest::Registers => SpecRequest::Registers,
            DebugRequest::Variable { name } => SpecRequest::Variable { name: name@ },
            DebugRequest::Variables => SpecRequest::Variables,
            DebugRequest::SetChip { chip } => SpecRequest::SetChip { chip: chip@ },
            DebugRequest::SetProbeNumber { number } => SpecRequest::SetProbeNumber {
                number: *number,
            },
            DebugRequest::StackTrace => SpecRequest::StackTrace,
            DebugRequest::Read { address, byte_size } => SpecRequest::Read {
                address: *address,
                byte_size: *byte_size,
            },
            DebugRequest::Reset { reset_and_halt } => SpecRequest::Reset {
                reset_and_halt: *reset_and_halt,
            },
            DebugRequest::Flash { reset_and_halt } => SpecRequest::Flash {
                reset_and_halt: *reset_and_halt,
            },
            DebugRequest::Step => SpecRequest::Step,
            DebugRequest::Status => SpecRequest::Status,
            DebugRequest::Exit => SpecRequest::Exit,
            DebugRequest::Continue => SpecRequest::Continue,
            DebugRequest::Halt => SpecRequest::Halt,
            DebugRequest::SetBinary { path } => SpecRequest::SetBinary { path: path@ },
        }
    }
}

/// The envelope handed to the caller: today every command is a request,
/// and the envelope is the extension point for future meta-commands.
#[derive(Debug, PartialEq, Eq)]
pub enum Command {
    Request(DebugRequest),
}

/// The spec-level value of a [`Command`].
pub enum SpecCommand {
    Request(SpecRequest),
}

impl View for Command {
    type V = SpecCommand;

    open spec fn view(&self) -> SpecCommand {
        match self {
            Command::Request(request) => SpecCommand::Request(request@),
        }
    }
}

} // verus!
