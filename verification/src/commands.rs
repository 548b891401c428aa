//! Commands that need the user's confirmation, and the rules that decide
//! what running one yields: dry-run answers, refusals and process outcomes.

use vstd::prelude::*;
use crate::text::{cat, cat3, trim, trim_ws};

verus! {

/// A system command that needs user confirmation before execution.
#[derive(Debug, Clone)]
pub struct CommandToExecute {
    /// Human-readable name shown in the confirmation dialog title
    pub display_name: String,
    /// The exact shell command string to execute
    pub command_string: String,
    /// Optional risk/warning text displayed in the confirmation dialog
    pub risk_warning: Option<String>,
}

/// Result of a command execution.
#[derive(Debug, Clone)]
pub struct CommandResult {
    pub success: bool,
    pub output: String,
}

/// What running `sh -c <command>` gave back, as plain values.
#[derive(Debug, Clone)]
pub enum ProcessOutcome {
    /// The process ran to its end; `status` is its exit status as displayed.
    Exited { success: bool, stdout: String, stderr: String, status: String },
    /// The process could not be started; the text is the reason.
    SpawnFailed(String),
}

/// The first step of executing a command.
#[derive(Debug)]
pub enum ExecStep {
    /// Nothing is to be run: this is the answer. `log_line`, when present,
    /// is appended to the dry-run log.
    Done { result: Result<String, String>, log_line: Option<String> },
    /// Run `command` with `sh -c` and hand its outcome to `record_outcome`.
    Run { command: String },
}

/// Manages command execution with dry-run support and history tracking.
pub struct CommandExecutor {
    pub dry_run: bool,
    pub history: Vec<String>,
    pub last_result: Option<CommandResult>,
}

/// The view of an optional string.
pub open spec fn opt_view(o: Option<String>) -> Option<Seq<char>> {
    match o {
        Some(s) => Some(s@),
        None => None,
    }
}

/// `c` is the command with this name, command text and risk warning.
pub open spec fn is_command(
    c: CommandToExecute,
    name: Seq<char>,
    command: Seq<char>,
    warning: Option<Seq<char>>,
) -> bool {
    &&& c.display_name@ == name
    &&& c.command_string@ == command
    &&& opt_view(c.risk_warning) == warning
}

pub open spec fn dry_run_message(cmd: Seq<char>) -> Seq<char> {
    "[DRY-RUN] Would execute: "@ + cmd
}

pub open spec fn dry_run_log_line(name: Seq<char>, cmd: Seq<char>) -> Seq<char> {
    "[DRY-RUN] "@ + name + ": "@ + cmd
}

/// The answer that an executed command gives, from what its process did.
pub open spec fn outcome_spec(o: ProcessOutcome) -> Result<Seq<char>, Seq<char>> {
    match o {
        ProcessOutcome::Exited { success, stdout, stderr, status } => {
            if success {
                if stdout@.len() == 0 {
                    Ok("Command completed successfully."@)
                } else {
                    Ok(stdout@)
                }
            } else {
                if stderr@.len() == 0 {
                    Err("Command failed with exit code: "@ + status@)
                } else {
                    Err(stderr@)
                }
            }
        },
        ProcessOutcome::SpawnFailed(e) => Err("Failed to spawn command: "@ + e@),
    }
}

/// The answer that a silently run command gives, from what its process did.
pub open spec fn silent_spec(cmd: Seq<char>, o: ProcessOutcome) -> Result<Seq<char>, Seq<char>> {
    match o {
        ProcessOutcome::Exited { success, stdout, stderr, status } => {
            if success {
                Ok(trim(stdout@))
            } else {
                Err(trim(stderr@))
            }
        },
        ProcessOutcome::SpawnFailed(e) => Err("Failed to run '"@ + cmd + "': "@ + e@),
    }
}

/// The view of a `Result` of strings.
pub open spec fn result_view(r: Result<String, String>) -> Result<Seq<char>, Seq<char>> {
    match r {
        Ok(s) => Ok(s@),
        Err(e) => Err(e@),
    }
}

/// A command that consists of white space only.
pub open spec fn is_blank(cmd: Seq<char>) -> bool {
    trim(cmd).len() == 0
}

/// The first step for `cmd` in the given mode: a dry run answers at once and
/// runs nothing; a blank command is refused; any other command is run.
pub open spec fn plan_spec(dry_run: bool, cmd: CommandToExecute, step: ExecStep) -> bool {
    if dry_run {
        match step {
            ExecStep::Done { result, log_line } => {
                &&& result_view(result) == Ok::<Seq<char>, Seq<char>>(
                    dry_run_message(cmd.command_string@),
                )
                &&& match log_line {
                    Some(l) => l@ == dry_run_log_line(cmd.display_name@, cmd.command_string@),
                    None => false,
                }
            },
            ExecStep::Run { .. } => false,
        }
    } else if is_blank(cmd.command_string@) {
        match step {
            ExecStep::Done { result, log_line } => {
                &&& result_view(result) == Err::<Seq<char>, Seq<char>>("Empty command string"@)
                &&& log_line is None
            },
            ExecStep::Run { .. } => false,
        }
    } else {
        match step {
            ExecStep::Run { command } => command@ == cmd.command_string@,
            ExecStep::Done { .. } => false,
        }
    }
}

/// What `last_result` records of an answer.
pub open spec fn recorded(r: Result<Seq<char>, Seq<char>>, c: CommandResult) -> bool {
    match r {
        Ok(s) => c.success && c.output@ == s,
        Err(e) => !c.success && c.output@ == e,
    }
}

fn result_of(r: &Result<String, String>) -> (c: CommandResult)
    ensures
        recorded(result_view(*r), c),
{
    match r {
        Ok(s) => CommandResult { success: true, output: s.clone() },
        Err(e) => CommandResult { success: false, output: e.clone() },
    }
}

impl CommandExecutor {
    pub fn new(dry_run: bool) -> (e: Self)
        ensures
            e.dry_run == dry_run,
            e.history@.len() == 0,
            e.last_result is None,
    {
        Self { dry_run, history: Vec::new(), last_result: None }
    }

    /// The first step for `cmd`, with no history kept: what runs in the
    /// background once the user confirmed.
    pub fn execute_static(dry_run: bool, cmd: &CommandToExecute) -> (step: ExecStep)
        ensures
            plan_spec(dry_run, *cmd, step),
    {
        let cmd_str = &cmd.command_string;
        if dry_run {
            let msg = cat("[DRY-RUN] Would execute: ", cmd_str.as_str());
            let head = cat3("[DRY-RUN] ", cmd.display_name.as_str(), ": ");
            let log_line = cat(head.as_str(), cmd_str.as_str());
            ExecStep::Done { result: Ok(msg), log_line: Some(log_line) }
        } else {
            let trimmed = trim_ws(cmd_str.as_str());
            if trimmed.as_str().is_empty() {
                ExecStep::Done {
                    result: Err(String::from_str("Empty command string")),
                    log_line: None,
                }
            } else {
                ExecStep::Run { command: cmd_str.clone() }
            }
        }
    }

    /// Executes a command: records it in the history, then either answers at
    /// once (dry run: a mock success, also recorded as the last result; or the
    /// refusal of a blank command) or asks for the command to be run.
    pub fn execute(&mut self, cmd: &CommandToExecute) -> (step: ExecStep)
        ensures
            final(self).history@ == old(self).history@.push(cmd.command_string),
            final(self).dry_run == old(self).dry_run,
            plan_spec(old(self).dry_run, *cmd, step),
            old(self).dry_run ==> (final(self).last_result matches Some(c) && c.success
                && c.output@ == dry_run_message(cmd.command_string@)),
            !old(self).dry_run ==> final(self).last_result == old(self).last_result,
    {
        self.history.push(cmd.command_string.clone());
        let step = Self::execute_static(self.dry_run, cmd);
        if self.dry_run {
            if let ExecStep::Done { result, .. } = &step {
                self.last_result = Some(result_of(result));
            }
        }
        step
    }

    /// The answer for a command that was run, from what its process did.
    pub fn outcome_result(outcome: &ProcessOutcome) -> (r: Result<String, String>)
        ensures
            result_view(r) == outcome_spec(*outcome),
    {
        match outcome {
            ProcessOutcome::Exited { success, stdout, stderr, status } => {
                if *success {
                    if stdout.as_str().is_empty() {
                        Ok(String::from_str("Command completed successfully."))
                    } else {
                        Ok(stdout.clone())
                    }
                } else {
                    if stderr.as_str().is_empty() {
                        Err(cat("Command failed with exit code: ", status.as_str()))
                    } else {
                        Err(stderr.clone())
                    }
                }
            },
            ProcessOutcome::SpawnFailed(e) => Err(cat("Failed to spawn command: ", e.as_str())),
        }
    }

    /// Records the outcome of a command that `execute` asked to run, and
    /// gives its answer.
    pub fn record_outcome(&mut self, outcome: &ProcessOutcome) -> (r: Result<String, String>)
        ensures
            result_view(r) == outcome_spec(*outcome),
            (final(self).last_result matches Some(c) && recorded(result_view(r), c)),
            final(self).history == old(self).history,
            final(self).dry_run == old(self).dry_run,
    {
        let r = Self::outcome_result(outcome);
        self.last_result = Some(result_of(&r));
        r
    }

    /// The answer of a silently run command (used for data gathering, not
    /// user actions): its trimmed output, or its trimmed error output.
    pub fn run_silent(cmd_str: &str, outcome: &ProcessOutcome) -> (r: Result<String, String>)
        ensures
            result_view(r) == silent_spec(cmd_str@, *outcome),
    {
        match outcome {
            ProcessOutcome::Exited { success, stdout, stderr, .. } => {
                if *success {
                    Ok(trim_ws(stdout.as_str()))
                } else {
                    Err(trim_ws(stderr.as_str()))
                }
            },
            ProcessOutcome::SpawnFailed(e) => {
                let head = cat3("Failed to run '", cmd_str, "': ");
                Err(cat(head.as_str(), e.as_str()))
            },
        }
    }
}

/// A dry run never runs anything: whatever the command, the first step
/// answers at once.
pub proof fn lemma_dry_run_never_runs(cmd: CommandToExecute, step: ExecStep)
    requires
        plan_spec(true, cmd, step),
    ensures
        step is Done,
{
}

/// What is run is exactly the command that was asked for, and never a blank
/// one.
pub proof fn lemma_only_the_given_command_runs(dry_run: bool, cmd: CommandToExecute, step: ExecStep)
    requires
        plan_spec(dry_run, cmd, step),
        step is Run,
    ensures
        !dry_run,
        !is_blank(cmd.command_string@),
        step->command@ == cmd.command_string@,
{
}

/// A process that exited with success is answered with success, whatever
/// it wrote on standard error: with its standard output, or with the
/// completion message when it printed nothing. A process that failed is
/// answered with a failure: its standard error, or its exit status when it
/// wrote no error. A failure answer comes only from a failed process or one
/// that could not be started.
pub proof fn lemma_outcome_success_iff_process_success(o: ProcessOutcome)
    ensures
        o matches ProcessOutcome::Exited { success, stdout, .. } ==> success ==> {
            &&& outcome_spec(o) is Ok
            &&& stdout@.len() > 0 ==> outcome_spec(o) == Ok::<Seq<char>, Seq<char>>(stdout@)
            &&& stdout@.len() == 0 ==> outcome_spec(o) == Ok::<Seq<char>, Seq<char>>(
                "Command completed successfully."@,
            )
        },
        o matches ProcessOutcome::Exited { success, stderr, status, .. } ==> !success ==> {
            &&& outcome_spec(o) is Err
            &&& stderr@.len() > 0 ==> outcome_spec(o) == Err::<Seq<char>, Seq<char>>(stderr@)
            &&& stderr@.len() == 0 ==> outcome_spec(o) == Err::<Seq<char>, Seq<char>>(
                "Command failed with exit code: "@ + status@,
            )
        },
        o is SpawnFailed ==> outcome_spec(o) is Err,
        outcome_spec(o) is Err <==> (o is SpawnFailed || (o matches ProcessOutcome::Exited {
            success,
            ..
        } && !success)),
{
}

/// The same for silently run commands: success is answered with the trimmed
/// standard output, whatever standard error holds; failure with the trimmed
/// standard error.
pub proof fn lemma_silent_success_iff_process_success(cmd: Seq<char>, o: ProcessOutcome)
    ensures
        o matches ProcessOutcome::Exited { success, stdout, .. } ==> success ==> silent_spec(
            cmd,
            o,
        ) == Ok::<Seq<char>, Seq<char>>(trim(stdout@)),
        o matches ProcessOutcome::Exited { success, stderr, .. } ==> !success ==> silent_spec(
            cmd,
            o,
        ) == Err::<Seq<char>, Seq<char>>(trim(stderr@)),
        o is SpawnFailed ==> silent_spec(cmd, o) is Err,
{
}

} // verus!
