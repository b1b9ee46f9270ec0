use debug_commands::Commands;

const EXPECTED_HELP: &str = "Available commands:\
\n\t- attach: Attach to the target\
\n\t- set-work-directory: Set the current work directory\
\n\t- stack: Prints the current stack values\
\n\t- code: Prints the current code\
\n\t- clear-all-breakpoints: Removes all hardware breakpoints\
\n\t- clear-breakpoint: Remove a hardware breakpoint\
\n\t- set-breakpoint: Set a hardware breakpoint\
\n\t- registers: Print all register values\
\n\t- variable: Print the value of a variable\
\n\t- variables: Print all local variables\
\n\t- set-chip: Set chip model being used\
\n\t- set-probe-number: Set the probe number to use\
\n\t- stack-trace: Print stack trace\
\n\t- read: Read address in memory\
\n\t- reset: Reset or reset and halt the core\
\n\t- flash: Flash target with binary file\
\n\t- step: Step one assembly instruction\
\n\t- status: Print the status of the core\
\n\t- exit: Exit debugger\
\n\t- continue: Continue the program\
\n\t- halt: Halt the core\
\n\t- set-binary: Set the binary file to debug";

#[test]
fn help_lists_every_command_in_registration_order() {
    let commands = Commands::new();
    let help = commands.check_if_help("help").expect("help must answer");
    assert_eq!(help, EXPECTED_HELP);
}

#[test]
fn help_lists_each_name_exactly_once() {
    let commands = Commands::new();
    let help = commands.check_if_help("help").expect("help must answer");
    for name in [
        "attach",
        "set-work-directory",
        "clear-all-breakpoints",
        "clear-breakpoint",
        "set-breakpoint",
        "registers",
        "variable",
        "set-chip",
        "set-probe-number",
        "stack-trace",
        "read",
        "flash",
        "step",
        "exit",
        "continue",
        "halt",
        "set-binary",
    ] {
        let entry = format!("\n\t- {}: ", name);
        assert_eq!(
            help.matches(&entry).count(),
            1,
            "expected one entry for {:?}",
            name
        );
    }
}

#[test]
fn help_answers_only_when_the_first_token_is_help() {
    let commands = Commands::new();
    assert!(commands.check_if_help("help").is_some());
    assert!(commands.check_if_help("  help  ").is_some());
    assert!(commands.check_if_help("help me").is_some());
    assert!(commands.check_if_help("").is_none());
    assert!(commands.check_if_help("   ").is_none());
    assert!(commands.check_if_help("helpme").is_none());
    assert!(commands.check_if_help("reset").is_none());
    assert!(commands.check_if_help("Help").is_none());
}
