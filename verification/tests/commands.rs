use debug_commands::Command;
use debug_commands::CommandError;
use debug_commands::Commands;
use debug_commands::DebugRequest;
use debug_commands::NumericError;

fn request(line: &str) -> DebugRequest {
    let commands = Commands::new();
    match commands.parse_command(line) {
        Ok(Command::Request(request)) => request,
        Err(e) => panic!("line {:?} failed: {:?}", line, e),
    }
}

fn failure(line: &str) -> CommandError {
    let commands = Commands::new();
    match commands.parse_command(line) {
        Ok(command) => panic!("line {:?} unexpectedly parsed: {:?}", line, command),
        Err(e) => e,
    }
}

#[test]
fn empty_line_is_empty_command() {
    assert_eq!(failure(""), CommandError::EmptyCommand);
}

#[test]
fn blank_line_is_empty_command() {
    assert_eq!(failure("   \t  "), CommandError::EmptyCommand);
}

#[test]
fn unknown_command_echoes_the_name() {
    let e = failure("frobnicate");
    assert_eq!(
        e,
        CommandError::UnknownCommand {
            name: "frobnicate".to_string(),
        }
    );
    let message = e.message();
    assert!(message.contains("frobnicate"));
    assert!(message.contains("help"));
}

#[test]
fn lookup_is_case_sensitive() {
    assert_eq!(
        failure("Reset"),
        CommandError::UnknownCommand {
            name: "Reset".to_string(),
        }
    );
}

#[test]
fn attach_ignores_arguments() {
    let expected = DebugRequest::Attach {
        reset: false,
        reset_and_halt: false,
    };
    assert_eq!(request("attach"), expected);
    assert_eq!(request("attach now please"), expected);
}

#[test]
fn set_work_directory_takes_a_path() {
    assert_eq!(
        request("set-work-directory /tmp/project"),
        DebugRequest::SetCWD {
            cwd: "/tmp/project".to_string(),
        }
    );
}

#[test]
fn clear_breakpoint_parses_the_address() {
    assert_eq!(
        request("clear-breakpoint 0x2000"),
        DebugRequest::ClearBreakpoint { address: 8192 }
    );
}

#[test]
fn set_breakpoint_with_source_file() {
    assert_eq!(
        request("set-breakpoint 0x1000 main.c"),
        DebugRequest::SetBreakpoint {
            address: 4096,
            source_file: Some("main.c".to_string()),
        }
    );
}

#[test]
fn set_breakpoint_without_source_file() {
    assert_eq!(
        request("set-breakpoint 0x1000"),
        DebugRequest::SetBreakpoint {
            address: 4096,
            source_file: None,
        }
    );
}

#[test]
fn set_breakpoint_ignores_excess_tokens() {
    assert_eq!(
        request("set-breakpoint 0x1000 main.c extra"),
        DebugRequest::SetBreakpoint {
            address: 4096,
            source_file: Some("main.c".to_string()),
        }
    );
}

#[test]
fn set_breakpoint_rejects_bad_address() {
    assert_eq!(
        failure("set-breakpoint junk"),
        CommandError::MalformedNumeric {
            cause: NumericError::InvalidDigit,
        }
    );
}

#[test]
fn variable_takes_a_name() {
    assert_eq!(
        request("variable counter"),
        DebugRequest::Variable {
            name: "counter".to_string(),
        }
    );
}

#[test]
fn set_chip_takes_a_chip_name() {
    assert_eq!(
        request("set-chip STM32F411RETx"),
        DebugRequest::SetChip {
            chip: "STM32F411RETx".to_string(),
        }
    );
}

#[test]
fn set_probe_number_parses_the_number() {
    assert_eq!(
        request("set-probe-number 2"),
        DebugRequest::SetProbeNumber { number: 2 }
    );
}

#[test]
fn set_binary_takes_a_path() {
    assert_eq!(
        request("set-binary target/debug/firmware"),
        DebugRequest::SetBinary {
            path: "target/debug/firmware".to_string(),
        }
    );
}

#[test]
fn read_with_byte_size() {
    assert_eq!(
        request("read 0x2000 2"),
        DebugRequest::Read {
            address: 8192,
            byte_size: 2,
        }
    );
}

#[test]
fn read_defaults_to_four_bytes() {
    assert_eq!(
        request("read 0x2000"),
        DebugRequest::Read {
            address: 8192,
            byte_size: 4,
        }
    );
}

#[test]
fn read_ignores_excess_tokens() {
    assert_eq!(
        request("read 0x2000 2 9"),
        DebugRequest::Read {
            address: 8192,
            byte_size: 2,
        }
    );
}

#[test]
fn read_rejects_bad_byte_size() {
    assert_eq!(
        failure("read 0x2000 zz"),
        CommandError::MalformedNumeric {
            cause: NumericError::InvalidDigit,
        }
    );
}

#[test]
fn reset_defaults_to_running() {
    assert_eq!(
        request("reset"),
        DebugRequest::Reset {
            reset_and_halt: false,
        }
    );
}

#[test]
fn reset_true_halts() {
    assert_eq!(
        request("reset true"),
        DebugRequest::Reset {
            reset_and_halt: true,
        }
    );
}

#[test]
fn reset_rejects_a_malformed_boolean() {
    assert_eq!(failure("reset maybe"), CommandError::MalformedBoolean);
}

#[test]
fn flash_defaults_to_running() {
    assert_eq!(
        request("flash"),
        DebugRequest::Flash {
            reset_and_halt: false,
        }
    );
}

#[test]
fn flash_true_halts() {
    assert_eq!(
        request("flash true"),
        DebugRequest::Flash {
            reset_and_halt: true,
        }
    );
}

#[test]
fn marker_commands_produce_their_variants() {
    assert_eq!(request("stack"), DebugRequest::Stack);
    assert_eq!(request("code"), DebugRequest::Code);
    assert_eq!(request("clear-all-breakpoints"), DebugRequest::ClearAllBreakpoints);
    assert_eq!(request("registers"), DebugRequest::Registers);
    assert_eq!(request("variables"), DebugRequest::Variables);
    assert_eq!(request("stack-trace"), DebugRequest::StackTrace);
    assert_eq!(request("step"), DebugRequest::Step);
    assert_eq!(request("status"), DebugRequest::Status);
    assert_eq!(request("exit"), DebugRequest::Exit);
    assert_eq!(request("continue"), DebugRequest::Continue);
    assert_eq!(request("halt"), DebugRequest::Halt);
}

#[test]
fn missing_arguments_are_reported_uniformly() {
    for line in [
        "set-work-directory",
        "clear-breakpoint",
        "set-breakpoint",
        "variable",
        "set-chip",
        "set-probe-number",
        "read",
        "set-binary",
    ] {
        assert_eq!(failure(line), CommandError::MissingArgument, "line {:?}", line);
    }
}

#[test]
fn surrounding_whitespace_is_ignored() {
    assert_eq!(
        request("  \t reset \t true  "),
        DebugRequest::Reset {
            reset_and_halt: true,
        }
    );
}

#[test]
fn unicode_whitespace_separates_tokens() {
    assert_eq!(
        request("read\u{00A0}0x2000\u{2003}2"),
        DebugRequest::Read {
            address: 8192,
            byte_size: 2,
        }
    );
    assert_eq!(
        request("\u{3000}halt\u{2028}"),
        DebugRequest::Halt
    );
}

#[test]
fn error_messages_are_descriptive() {
    assert_eq!(failure("").message(), "Empty Command");
    assert_eq!(
        failure("variable").message(),
        "Requires a string as a argument"
    );
    assert_eq!(failure("reset 1").message(), "Expected a boolean argument");
    assert_eq!(
        failure("read 0x").message(),
        "cannot parse integer from empty string"
    );
    assert_eq!(
        failure("read 99999999999").message(),
        "number too large to fit in target type"
    );
    assert_eq!(
        failure("frobnicate").message(),
        "Unknown command 'frobnicate'\n\tEnter 'help' for a list of commands"
    );
}
