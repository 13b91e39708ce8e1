//! The process of a server: how it is launched, and how it is ended.

use vstd::prelude::*;
use vstd::string::StringExecFns;

use crate::config::paths::PathName;
use crate::text::{in_context, with_context};

verus! {

/// How a server is launched.
pub struct LaunchCommand {
    pub program: PathName,
    pub arguments: Vec<String>,
    pub working_directory: PathName,
    /// Variables that the server does not inherit.
    pub removed_environment: Vec<String>,
}

impl LaunchCommand {
    /// A command whose process inherits every variable.
    pub fn new(program: PathName, arguments: Vec<String>, working_directory: PathName) -> (command:
        LaunchCommand)
        ensures
            command.program == program,
            command.arguments == arguments,
            command.working_directory == working_directory,
            command.removed_environment@ == Seq::<String>::empty(),
    {
        LaunchCommand {
            program,
            arguments,
            working_directory,
            removed_environment: Vec::new(),
        }
    }

    /// The same command, whose process does not inherit these variables.
    pub fn with_removed_environment(self, names: Vec<String>) -> (command: LaunchCommand)
        ensures
            command == (LaunchCommand { removed_environment: names, ..self }),
    {
        LaunchCommand {
            program: self.program,
            arguments: self.arguments,
            working_directory: self.working_directory,
            removed_environment: names,
        }
    }
}

/// What a server reads on its console to stop.
pub fn console_stop() -> (line: &'static str)
    ensures
        line@ == "stop\n"@,
{
    "stop\n"
}

/// How looking at the process went.
pub enum ProcessQuery {
    Running,
    Exited,
    Failed(String),
}

/// What to do to end a process by force.
pub enum TerminateStep {
    /// It is over already.
    Done,
    /// Kill it together with what it started.
    KillTree,
    Failed(String),
}

/// Begins to end a process by force.
pub fn terminate(query: ProcessQuery) -> (step: TerminateStep)
    ensures
        match query {
            ProcessQuery::Exited => step is Done,
            ProcessQuery::Running => step is KillTree,
            ProcessQuery::Failed(cause) => step matches TerminateStep::Failed(text) && text@
                == in_context("failed to query the server process"@, cause@),
        },
{
    match query {
        ProcessQuery::Exited => TerminateStep::Done,
        ProcessQuery::Running => TerminateStep::KillTree,
        ProcessQuery::Failed(cause) => TerminateStep::Failed(
            with_context("failed to query the server process", cause.as_str()),
        ),
    }
}

/// The number of a process group for a process identifier, which is a signed number.
pub fn process_group(process_id: Option<u32>) -> (result: Result<i32, String>)
    ensures
        match process_id {
            None => result matches Err(text) && text@ == "server process has no process ID"@,
            Some(id) => if id <= i32::MAX {
                result == Ok::<i32, String>(id as i32)
            } else {
                result matches Err(text) && text@ == in_context(
                    "server process ID exceeds the Unix PID range"@,
                    "out of range integral type conversion attempted"@,
                )
            },
        },
{
    match process_id {
        None => Err("server process has no process ID".to_owned()),
        Some(id) => {
            if id <= 0x7fff_ffff {
                Ok(id as i32)
            } else {
                Err(
                    with_context(
                        "server process ID exceeds the Unix PID range",
                        "out of range integral type conversion attempted",
                    ),
                )
            }
        },
    }
}

/// What came of looking at a process, and of killing it alone, after its whole tree could not be
/// killed. A process that is over already is not killed.
pub enum DirectTermination {
    AlreadyExited,
    Killed { query_error: Option<String> },
    NotKilled { query_error: Option<String>, kill_error: String },
}

/// The circumstance of a tree that could not be killed. Whether its other processes are gone is
/// uncertain in every case.
pub open spec fn direct_termination_note(direct: DirectTermination) -> Seq<char> {
    match direct {
        DirectTermination::AlreadyExited => {
            "the direct server process already exited, but descendant cleanup remains uncertain"@
        },
        DirectTermination::Killed { query_error: None } => {
            "direct server process termination was requested, but descendant cleanup remains uncertain"@
        },
        DirectTermination::NotKilled { query_error: None, kill_error } => {
            "direct server process termination also failed: "@ + kill_error@
                + "; descendant cleanup remains uncertain"@
        },
        DirectTermination::Killed { query_error: Some(query_error) } => {
            "failed to query the direct server process ("@ + query_error@
                + "); direct termination was requested, but descendant cleanup remains uncertain"@
        },
        DirectTermination::NotKilled { query_error: Some(query_error), kill_error } => {
            "failed to query the direct server process ("@ + query_error@
                + ") and direct termination also failed ("@ + kill_error@
                + "); descendant cleanup remains uncertain"@
        },
    }
}

/// Whether to kill the process alone after its whole tree could not be killed.
pub fn kills_directly(query: &ProcessQuery) -> (kills: bool)
    ensures
        kills == !(*query is Exited),
{
    match query {
        ProcessQuery::Exited => false,
        ProcessQuery::Running | ProcessQuery::Failed(_) => true,
    }
}

/// The error of a tree that could not be killed.
pub fn terminate_direct_after_tree_failure(tree_error: &str, direct: DirectTermination) -> (error:
    String)
    ensures
        error@ == in_context(direct_termination_note(direct), tree_error@),
{
    let note = match direct {
        DirectTermination::AlreadyExited => {
            "the direct server process already exited, but descendant cleanup remains uncertain".to_owned()
        },
        DirectTermination::Killed { query_error: None } => {
            "direct server process termination was requested, but descendant cleanup remains uncertain".to_owned()
        },
        DirectTermination::NotKilled { query_error: None, kill_error } => {
            let mut note = "direct server process termination also failed: ".to_owned();
            note.append(kill_error.as_str());
            note.append("; descendant cleanup remains uncertain");
            note
        },
        DirectTermination::Killed { query_error: Some(query_error) } => {
            let mut note = "failed to query the direct server process (".to_owned();
            note.append(query_error.as_str());
            note.append(
                "); direct termination was requested, but descendant cleanup remains uncertain",
            );
            note
        },
        DirectTermination::NotKilled { query_error: Some(query_error), kill_error } => {
            let mut note = "failed to query the direct server process (".to_owned();
            note.append(query_error.as_str());
            note.append(") and direct termination also failed (");
            note.append(kill_error.as_str());
            note.append("); descendant cleanup remains uncertain");
            note
        },
    };
    with_context(note.as_str(), tree_error)
}

/// What is told of a process that had to be ended alone says whether it was, why it could not be
/// asked or ended, and in any case that its descendants are uncertain.
pub proof fn ends_without_the_tree_are_told(query: String, kill: String)
    ensures
        direct_termination_note(
            DirectTermination::NotKilled { query_error: None, kill_error: kill },
        ) == "direct server process termination also failed: "@ + kill@
            + "; descendant cleanup remains uncertain"@,
        direct_termination_note(DirectTermination::Killed { query_error: Some(query) })
            == "failed to query the direct server process ("@ + query@
            + "); direct termination was requested, but descendant cleanup remains uncertain"@,
        direct_termination_note(
            DirectTermination::NotKilled { query_error: Some(query), kill_error: kill },
        ) == "failed to query the direct server process ("@ + query@
            + ") and direct termination also failed ("@ + kill@
            + "); descendant cleanup remains uncertain"@,
{
}

} // verus!
