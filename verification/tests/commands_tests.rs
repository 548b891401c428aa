use ferio_linux_helper::commands::{CommandExecutor, CommandToExecute, ExecStep, ProcessOutcome};

fn cmd(name: &str, command: &str) -> CommandToExecute {
    CommandToExecute {
        display_name: name.to_string(),
        command_string: command.to_string(),
        risk_warning: None,
    }
}

fn exited(success: bool, stdout: &str, stderr: &str) -> ProcessOutcome {
    ProcessOutcome::Exited {
        success,
        stdout: stdout.to_string(),
        stderr: stderr.to_string(),
        status: "exit status: 2".to_string(),
    }
}

#[test]
fn new_executor_is_empty() {
    let e = CommandExecutor::new(true);
    assert!(e.dry_run);
    assert!(e.history.is_empty());
    assert!(e.last_result.is_none());
}

#[test]
fn dry_run_logs_and_answers_without_running() {
    let mut e = CommandExecutor::new(true);
    let step = e.execute(&cmd("清理缓存", "apt clean"));
    match step {
        ExecStep::Done { result, log_line } => {
            assert_eq!(result, Ok("[DRY-RUN] Would execute: apt clean".to_string()));
            assert_eq!(log_line, Some("[DRY-RUN] 清理缓存: apt clean".to_string()));
        }
        ExecStep::Run { .. } => panic!("a dry run must not run anything"),
    }
    assert_eq!(e.history, vec!["apt clean".to_string()]);
    let last = e.last_result.clone().unwrap();
    assert!(last.success);
    assert_eq!(last.output, "[DRY-RUN] Would execute: apt clean");
}

#[test]
fn dry_run_does_not_refuse_blank_commands() {
    let mut e = CommandExecutor::new(true);
    assert!(matches!(e.execute(&cmd("x", "  ")), ExecStep::Done { result: Ok(_), .. }));
}

#[test]
fn blank_command_is_refused_but_recorded() {
    let mut e = CommandExecutor::new(false);
    match e.execute(&cmd("nothing", " \t ")) {
        ExecStep::Done { result, log_line } => {
            assert_eq!(result, Err("Empty command string".to_string()));
            assert!(log_line.is_none());
        }
        ExecStep::Run { .. } => panic!("blank commands are refused"),
    }
    assert_eq!(e.history, vec![" \t ".to_string()]);
    assert!(e.last_result.is_none());
}

#[test]
fn other_commands_are_run() {
    let mut e = CommandExecutor::new(false);
    match e.execute(&cmd("ping", "ping -c 4 8.8.8.8")) {
        ExecStep::Run { command } => assert_eq!(command, "ping -c 4 8.8.8.8"),
        ExecStep::Done { .. } => panic!("expected a run"),
    }
    match CommandExecutor::execute_static(false, &cmd("ping", "ping -c 4 8.8.8.8")) {
        ExecStep::Run { command } => assert_eq!(command, "ping -c 4 8.8.8.8"),
        ExecStep::Done { .. } => panic!("expected a run"),
    }
}

#[test]
fn outcomes_become_answers() {
    let mut e = CommandExecutor::new(false);
    assert_eq!(e.record_outcome(&exited(true, "done\n", "")), Ok("done\n".to_string()));
    assert!(e.last_result.clone().unwrap().success);
    assert_eq!(
        e.record_outcome(&exited(true, "", "")),
        Ok("Command completed successfully.".to_string())
    );
    assert_eq!(e.record_outcome(&exited(false, "", "boom")), Err("boom".to_string()));
    let last = e.last_result.clone().unwrap();
    assert!(!last.success);
    assert_eq!(last.output, "boom");
    assert_eq!(
        e.record_outcome(&exited(false, "out", "")),
        Err("Command failed with exit code: exit status: 2".to_string())
    );
    assert_eq!(
        e.record_outcome(&ProcessOutcome::SpawnFailed("not found".to_string())),
        Err("Failed to spawn command: not found".to_string())
    );
}

#[test]
fn silent_runs_give_trimmed_text() {
    assert_eq!(
        CommandExecutor::run_silent("uname -r", &exited(true, " 6.8.0\n", "ignored")),
        Ok("6.8.0".to_string())
    );
    assert_eq!(
        CommandExecutor::run_silent("x", &exited(false, "out", "  no such unit \n")),
        Err("no such unit".to_string())
    );
    assert_eq!(
        CommandExecutor::run_silent("hostname", &ProcessOutcome::SpawnFailed("denied".to_string())),
        Err("Failed to run 'hostname': denied".to_string())
    );
}

#[test]
fn background_dry_run_answers_at_once() {
    match CommandExecutor::execute_static(true, &cmd("升级系统", "apt upgrade -y")) {
        ExecStep::Done { result, log_line } => {
            assert_eq!(result, Ok("[DRY-RUN] Would execute: apt upgrade -y".to_string()));
            assert_eq!(log_line, Some("[DRY-RUN] 升级系统: apt upgrade -y".to_string()));
        }
        ExecStep::Run { .. } => panic!("a dry run must not run anything"),
    }
}
