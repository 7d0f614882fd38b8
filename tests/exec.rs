use comtrya::atoms::{
    classify_and_log_message, exit_result, new_run_command, validation_flag_for, Exec, ExecError,
    LogLevel,
};
use comtrya::privilege::Privilege;

#[test]
fn defaults() {
    let command_run = Exec {
        ..Default::default()
    };

    assert_eq!(String::from(""), command_run.command);
    assert_eq!(0, command_run.arguments.len());
    assert_eq!(None, command_run.working_dir);
    assert_eq!(0, command_run.environment.len());
    assert_eq!(false, command_run.privileged);

    let command_run = new_run_command(String::from("echo"));

    assert_eq!(String::from("echo"), command_run.command);
    assert_eq!(0, command_run.arguments.len());
    assert_eq!(None, command_run.working_dir);
    assert_eq!(0, command_run.environment.len());
    assert_eq!(false, command_run.privileged);
}

fn check_elevation(provider: Privilege, expected: &str) {
    let mut command_run = new_run_command(String::from("echo"));
    command_run.arguments = vec![String::from("Hello, world!")];
    let (command, args) = command_run.elevate_for("tester");

    assert_eq!(String::from("echo"), command);
    assert_eq!(vec![String::from("Hello, world!")], args);

    let mut command_run = new_run_command(String::from("echo"));
    command_run.arguments = vec![String::from("Hello, world!")];
    command_run.privileged = true;
    command_run.privilege_provider = provider.name();
    let (command, args) = command_run.elevate_for("tester");

    assert_eq!(String::from(expected), command);
    assert_eq!(
        vec![String::from("echo"), String::from("Hello, world!")],
        args
    );
}

#[test]
fn elevate() {
    check_elevation(Privilege::Sudo, "sudo");
}

#[test]
fn elevate_doas() {
    check_elevation(Privilege::Doas, "doas");
}

#[test]
fn elevate_run0() {
    check_elevation(Privilege::Run0, "run0");
}

#[test]
fn root_runs_privileged_commands_unchanged() {
    let mut plain = new_run_command(String::from("echo"));
    plain.arguments = vec![String::from("hi")];
    let mut privileged = new_run_command(String::from("echo"));
    privileged.arguments = vec![String::from("hi")];
    privileged.privileged = true;
    privileged.privilege_provider = String::from("sudo");
    assert_eq!(plain.elevate_for("root"), privileged.elevate_for("root"));
    assert_eq!(
        (String::from("echo"), vec![String::from("hi")]),
        privileged.elevate_for("root")
    );
}

#[test]
fn output_lines_are_classified_by_keyword() {
    assert_eq!(LogLevel::Error, classify_and_log_message("An ERROR occurred"));
    assert_eq!(LogLevel::Warn, classify_and_log_message("Warning: disk almost full"));
    assert_eq!(LogLevel::Error, classify_and_log_message("warn: then error"));
    assert_eq!(LogLevel::Info, classify_and_log_message("all good"));
    assert_eq!(LogLevel::Info, classify_and_log_message(""));
}

#[test]
fn exec_always_plans_to_run() {
    let e = new_run_command(String::from("echo"));
    let outcome = e.plan();
    assert!(outcome.should_run);
    assert!(outcome.side_effects.is_empty());
}

#[test]
fn exec_describes_itself() {
    let mut e = new_run_command(String::from("echo"));
    e.arguments = vec![String::from("a"), String::from("b")];
    assert_eq!("CommandExec with: privileged=false: echo a b", e.describe());
}

#[test]
fn exec_decisions() {
    assert!(exit_result(true, 0, String::new()).is_ok());
    match exit_result(false, 2, String::from("boom")) {
        Err(ExecError::NonZeroExit { code, stderr }) => {
            assert_eq!(2, code);
            assert_eq!("boom", stderr);
        }
        _ => panic!("expected a non-zero exit"),
    }
    assert_eq!(Some(String::from("--validate")), validation_flag_for("sudo"));
    assert_eq!(None, validation_flag_for("doas"));
    assert_eq!(None, validation_flag_for("echo"));

    let mut e = new_run_command(String::from("ls"));
    e.arguments = vec![String::from("-l")];
    assert_eq!(
        (String::from("doas"), vec![String::from("ls"), String::from("-l")]),
        e.fallback_invocation("doas")
    );
}

#[test]
fn elevate_if_required_follows_the_current_user() {
    let mut command_run = new_run_command(String::from("echo"));
    command_run.arguments = vec![String::from("Hello, world!")];
    command_run.privileged = true;
    command_run.privilege_provider = Privilege::Sudo.name();
    let user = whoami::username();
    assert_eq!(command_run.elevate_for(&user), command_run.elevate_if_required());
}
