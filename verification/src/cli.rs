//! What the command line says, and what it makes of the answers of the daemon.

use vstd::prelude::*;
use vstd::string::StringExecFns;

use crate::control::client::{ClientError, OperationStatus};
use crate::control::wire::{is_lower_hex, is_request_id, texts, ClientMutationOperation};
use crate::random::{hex, hex_text, random_bytes};
use crate::text::{append_decimal, decimal};

verus! {

/// Texts, each on a line of its own.
pub open spec fn lines(items: Seq<Seq<char>>) -> Seq<char>
    decreases items.len(),
{
    if items.len() == 0 {
        Seq::empty()
    } else {
        lines(items.drop_last()) + items.last() + "\n"@
    }
}

/// The list of servers.
pub fn format_list(server_ids: &Vec<String>) -> (output: String)
    ensures
        output@ == lines(texts(server_ids@)),
{
    let mut output = String::new();
    let mut at: usize = 0;
    while at < server_ids.len()
        invariant
            at <= server_ids@.len(),
            output@ == lines(texts(server_ids@.take(at as int))),
        decreases server_ids@.len() - at,
    {
        proof {
            let next = texts(server_ids@.take(at + 1));
            assert(next.drop_last() =~= texts(server_ids@.take(at as int)));
            assert(next.last() == server_ids@[at as int]@);
        }
        output.append(server_ids[at].as_str());
        output.append("\n");
        at += 1;
    }
    assert(server_ids@.take(at as int) =~= server_ids@);
    output
}

/// A number of milliseconds as a duration is shown with `{:?}`.
pub uninterp spec fn shown_milliseconds(milliseconds: u64) -> Seq<char>;

/// Formats `std::time::Duration::from_millis` with `{:?}`. Claimed of it: the result depends on
/// the number alone.
#[verifier::external_body]
fn show_milliseconds(milliseconds: u64) -> (text: String)
    ensures
        text@ == shown_milliseconds(milliseconds),
{
    format!("{:?}", std::time::Duration::from_millis(milliseconds))
}

/// The status of a server, line by line; `retry` is the time until it may be started again.
pub open spec fn status_lines(
    server_id: Seq<char>,
    phase: Seq<char>,
    failure: Option<Seq<char>>,
    failure_streak: nat,
    retry: Option<Seq<char>>,
    command_revision: nat,
) -> Seq<char> {
    "server: "@ + server_id + "\nphase: "@ + phase + "\n"@ + match failure {
        Some(category) => "failure: "@ + category + "\n"@,
        None => Seq::empty(),
    } + "failure streak: "@ + decimal(failure_streak) + "\n"@ + match retry {
        Some(time) => "retry after: "@ + time + "\n"@,
        None => Seq::empty(),
    } + "command revision: "@ + decimal(command_revision) + "\n"@
}

/// A text that may be missing, over characters.
pub open spec fn maybe_chars(text: Option<&str>) -> Option<Seq<char>> {
    match text {
        Some(text) => Some(text@),
        None => None,
    }
}

/// The status of a server, line by line.
pub fn format_status_lines(
    server_id: &str,
    phase: &str,
    failure_category: Option<&str>,
    failure_streak: u32,
    retry: Option<&str>,
    command_revision: u64,
) -> (output: String)
    ensures
        output@ == status_lines(
            server_id@,
            phase@,
            maybe_chars(failure_category),
            failure_streak as nat,
            maybe_chars(retry),
            command_revision as nat,
        ),
{
    let mut output = "server: ".to_owned();
    output.append(server_id);
    output.append("\nphase: ");
    output.append(phase);
    output.append("\n");
    let ghost front = output@;
    if let Some(failure) = failure_category {
        output.append("failure: ");
        output.append(failure);
        output.append("\n");
    }
    let ghost failure = match failure_category {
        Some(category) => "failure: "@ + category@ + "\n"@,
        None => Seq::empty(),
    };
    assert(output@ =~= front + failure);
    output.append("failure streak: ");
    append_decimal(&mut output, failure_streak as u64);
    output.append("\n");
    let ghost middle = output@;
    if let Some(time) = retry {
        output.append("retry after: ");
        output.append(time);
        output.append("\n");
    }
    let ghost wait = match retry {
        Some(time) => "retry after: "@ + time@ + "\n"@,
        None => Seq::empty(),
    };
    assert(output@ =~= middle + wait);
    output.append("command revision: ");
    append_decimal(&mut output, command_revision);
    output.append("\n");
    output
}

/// The status of a server, line by line.
pub fn format_status(
    server_id: &str,
    phase: &str,
    failure_category: Option<&str>,
    failure_streak: u32,
    retry_after_ms: Option<u64>,
    command_revision: u64,
) -> (output: String)
    ensures
        output@ == status_lines(
            server_id@,
            phase@,
            maybe_chars(failure_category),
            failure_streak as nat,
            match retry_after_ms {
                Some(milliseconds) => Some(shown_milliseconds(milliseconds)),
                None => None,
            },
            command_revision as nat,
        ),
{
    match retry_after_ms {
        Some(milliseconds) => {
            let shown = show_milliseconds(milliseconds);
            format_status_lines(
                server_id,
                phase,
                failure_category,
                failure_streak,
                Some(shown.as_str()),
                command_revision,
            )
        },
        None => format_status_lines(
            server_id,
            phase,
            failure_category,
            failure_streak,
            None,
            command_revision,
        ),
    }
}

/// What is said of an admitted request.
pub open spec fn mutation_line(
    operation: ClientMutationOperation,
    disposition: Seq<char>,
    request_id: Seq<char>,
    command_revision: nat,
    server_id: Seq<char>,
) -> Seq<char> {
    operation.name() + " "@ + disposition + " (request "@ + request_id + ", command revision "@
        + decimal(command_revision) + "). Use `mcservernap server status "@ + server_id
        + "` to observe eventual state.\n"@
}

/// What is said of an admitted request.
pub fn format_mutation_result(
    operation: ClientMutationOperation,
    disposition: &str,
    request_id: &str,
    command_revision: u64,
    server_id: &str,
) -> (output: String)
    ensures
        output@ == mutation_line(
            operation,
            disposition@,
            request_id@,
            command_revision as nat,
            server_id@,
        ),
{
    let mut output = operation.as_str().to_owned();
    output.append(" ");
    output.append(disposition);
    output.append(" (request ");
    output.append(request_id);
    output.append(", command revision ");
    append_decimal(&mut output, command_revision);
    output.append("). Use `mcservernap server status ");
    output.append(server_id);
    output.append("` to observe eventual state.\n");
    output
}

/// The identifier of a request that is made of these bytes.
pub fn request_id_from_bytes(bytes: [u8; 16]) -> (id: String)
    ensures
        id@ == hex(bytes@),
        is_request_id(id@),
{
    let id = hex_text(bytes.as_slice());
    assert forall|i: int| 0 <= i < 32 implies is_lower_hex(#[trigger] id@[i]) by {
        let byte = bytes@[i / 2] as int;
        assert(0 <= byte / 16 < 16 && 0 <= byte % 16 < 16);
    }
    id
}

/// The identifier of a request from bytes that may be missing.
pub fn generate_request_id_with<E>(filled: Result<[u8; 16], E>) -> (result: Result<String, E>)
    ensures
        match filled {
            Ok(bytes) => result matches Ok(id) && id@ == hex(bytes@) && is_request_id(id@),
            Err(error) => result == Err::<String, E>(error),
        },
{
    match filled {
        Ok(bytes) => Ok(request_id_from_bytes(bytes)),
        Err(error) => Err(error),
    }
}

/// A random identifier of a request.
pub fn generate_request_id() -> (result: Result<String, String>)
    ensures
        result matches Ok(id) ==> is_request_id(id@),
{
    generate_request_id_with(random_bytes())
}

/// What follows after a request for a change.
pub enum MutationStep {
    /// Say this.
    Print(String),
    /// Ask for the status of the server: nobody knows whether the request was admitted.
    Diagnose,
    Fail(String),
}

/// What follows after a request for a change.
pub fn mutate_server(
    operation: ClientMutationOperation,
    result: Result<OperationStatus, ClientError>,
) -> (step: MutationStep)
    ensures
        match result {
            Ok(status) => step matches MutationStep::Print(output) && output@ == mutation_line(
                operation,
                status@.disposition,
                status@.request_id,
                status@.command_revision as nat,
                status@.server_id,
            ),
            Err(ClientError::SubmissionUncertain) => step is Diagnose,
            Err(error) => step matches MutationStep::Fail(text) && text@ == error.text(),
        },
{
    match result {
        Ok(status) => MutationStep::Print(
            format_mutation_result(
                operation,
                status.disposition(),
                status.request_id(),
                status.command_revision(),
                status.server_id(),
            ),
        ),
        Err(ClientError::SubmissionUncertain) => MutationStep::Diagnose,
        Err(error) => MutationStep::Fail(error.to_string()),
    }
}

/// What the status of the server tells about a request whose outcome is uncertain; `revision` is
/// none if there was no status.
pub open spec fn diagnostic(expected_revision: u64, revision: Option<u64>) -> Seq<char> {
    match revision {
        Some(revision) => if revision != expected_revision {
            "The current command revision is "@ + decimal(revision as nat)
                + "; that change may belong to this request or another mutation."@
        } else {
            "The command revision is unchanged, but that still cannot prove absence while server-side cancellation is racing."@
        },
        None => "A diagnostic status query also failed."@,
    }
}

/// The error of a request whose outcome is uncertain. It is never sent again.
pub fn ambiguous_outcome(
    operation: ClientMutationOperation,
    request_id: &str,
    expected_revision: u64,
    revision: Option<u64>,
) -> (text: String)
    ensures
        text@ == operation.name() + " submission has an ambiguous outcome (request ID "@
            + request_id@ + ", expected command revision "@ + decimal(expected_revision as nat)
            + "). "@ + diagnostic(expected_revision, revision) + " The request was not resent."@,
{
    let mut text = operation.as_str().to_owned();
    text.append(" submission has an ambiguous outcome (request ID ");
    text.append(request_id);
    text.append(", expected command revision ");
    append_decimal(&mut text, expected_revision);
    text.append("). ");
    let ghost front = text@;
    match revision {
        Some(revision) => {
            if revision != expected_revision {
                text.append("The current command revision is ");
                append_decimal(&mut text, revision);
                text.append("; that change may belong to this request or another mutation.");
            } else {
                text.append(
                    "The command revision is unchanged, but that still cannot prove absence while server-side cancellation is racing.",
                );
            }
        },
        None => {
            text.append("A diagnostic status query also failed.");
        },
    }
    assert(text@ =~= front + diagnostic(expected_revision, revision));
    text.append(" The request was not resent.");
    text
}

/// A status is told line by line: the server, its phase, its failure if there is one, the number
/// of failures in a row, the time until the next attempt if there is one, and the revision.
pub proof fn statuses_are_told_line_by_line(
    server_id: Seq<char>,
    phase: Seq<char>,
    failure: Option<Seq<char>>,
    failure_streak: nat,
    retry: Option<Seq<char>>,
    command_revision: nat,
)
    ensures
        status_lines(server_id, phase, failure, failure_streak, retry, command_revision) == lines(
            seq!["server: "@ + server_id, "phase: "@ + phase] + (match failure {
                Some(category) => seq!["failure: "@ + category],
                None => Seq::empty(),
            }) + seq!["failure streak: "@ + decimal(failure_streak)] + (match retry {
                Some(time) => seq!["retry after: "@ + time],
                None => Seq::empty(),
            }) + seq!["command revision: "@ + decimal(command_revision)],
        ),
{
    let front = seq!["server: "@ + server_id, "phase: "@ + phase];
    let failures = match failure {
        Some(category) => seq!["failure: "@ + category],
        None => Seq::empty(),
    };
    let streak = seq!["failure streak: "@ + decimal(failure_streak)];
    let retries = match retry {
        Some(time) => seq!["retry after: "@ + time],
        None => Seq::empty(),
    };
    let revision = seq!["command revision: "@ + decimal(command_revision)];
    lemma_lines_add_up(front, failures);
    lemma_lines_add_up(front + failures, streak);
    lemma_lines_add_up(front + failures + streak, retries);
    lemma_lines_add_up(front + failures + streak + retries, revision);
    lemma_first_lines(server_id, phase);
    lemma_one_line("failure streak: "@ + decimal(failure_streak));
    lemma_one_line("command revision: "@ + decimal(command_revision));
    match failure {
        Some(category) => {
            lemma_one_line("failure: "@ + category);
        },
        None => {},
    }
    match retry {
        Some(time) => {
            lemma_one_line("retry after: "@ + time);
        },
        None => {},
    }
    let start = lines(front) + lines(failures);
    lemma_line_at_the_end(start, "failure streak: "@, decimal(failure_streak));
    let middle = start + lines(streak) + lines(retries);
    lemma_line_at_the_end(middle, "command revision: "@, decimal(command_revision));
}

proof fn lemma_one_line(line: Seq<char>)
    ensures
        lines(seq![line]) == line + "\n"@,
{
    reveal_with_fuel(lines, 2);
    assert(seq![line].drop_last() =~= Seq::<Seq<char>>::empty());
    assert(lines(seq![line]) =~= line + "\n"@);
}

proof fn lemma_first_lines(server_id: Seq<char>, phase: Seq<char>)
    ensures
        lines(seq!["server: "@ + server_id, "phase: "@ + phase]) == "server: "@ + server_id
            + "\nphase: "@ + phase + "\n"@,
{
    let first = "server: "@ + server_id;
    let second = "phase: "@ + phase;
    lemma_one_line(first);
    lemma_one_line(second);
    lemma_lines_add_up(seq![first], seq![second]);
    assert(seq![first] + seq![second] =~= seq![first, second]);
    reveal_strlit("\n");
    reveal_strlit("\nphase: ");
    reveal_strlit("phase: ");
    assert("\nphase: "@ =~= "\n"@ + "phase: "@);
    assert(first + "\n"@ + (second + "\n"@) =~= first + ("\n"@ + "phase: "@) + phase + "\n"@);
}

proof fn lemma_line_at_the_end(front: Seq<char>, name: Seq<char>, value: Seq<char>)
    ensures
        front + (name + value + "\n"@) == front + name + value + "\n"@,
{
    assert(front + (name + value + "\n"@) =~= front + name + value + "\n"@);
}

proof fn lemma_lines_add_up(left: Seq<Seq<char>>, right: Seq<Seq<char>>)
    ensures
        lines(left + right) == lines(left) + lines(right),
    decreases right.len(),
{
    let whole = left + right;
    if right.len() == 0 {
        assert(whole =~= left);
        assert(lines(left) + lines(right) =~= lines(left));
    } else {
        lemma_lines_add_up(left, right.drop_last());
        assert(whole.drop_last() =~= left + right.drop_last());
        assert(lines(whole) =~= lines(left) + lines(right));
    }
}

/// A list is told with one line for each server, in its order.
pub proof fn lists_are_told_line_by_line(items: Seq<Seq<char>>, next: Seq<char>)
    ensures
        lines(items.push(next)) == lines(items) + next + seq!['\n'],
        lines(Seq::empty()) == Seq::<char>::empty(),
{
    reveal_strlit("\n");
    assert("\n"@ =~= seq!['\n']);
    assert(items.push(next).drop_last() =~= items);
}

/// The result of a change tells the change, how it was met, its request, the new revision, and
/// which server to ask for more.
pub proof fn changes_are_told(
    operation: ClientMutationOperation,
    disposition: Seq<char>,
    request_id: Seq<char>,
    command_revision: nat,
    server_id: Seq<char>,
)
    ensures
        mutation_line(operation, disposition, request_id, command_revision, server_id) == (
        match operation {
            ClientMutationOperation::Start => "start"@,
            ClientMutationOperation::Stop => "stop"@,
            ClientMutationOperation::Restart => "restart"@,
        }) + " "@ + disposition + " (request "@ + request_id + ", command revision "@ + decimal(
            command_revision,
        ) + "). Use `mcservernap server status "@ + server_id
            + "` to observe eventual state.\n"@,
{
}

/// A change of the revision is told only where there is one.
pub proof fn changed_revisions_are_told(expected_revision: u64, revision: u64)
    ensures
        revision != expected_revision ==> diagnostic(expected_revision, Some(revision))
            == "The current command revision is "@ + decimal(revision as nat)
            + "; that change may belong to this request or another mutation."@,
        revision == expected_revision ==> diagnostic(expected_revision, Some(revision))
            == "The command revision is unchanged, but that still cannot prove absence while server-side cancellation is racing."@,
        diagnostic(expected_revision, None) == "A diagnostic status query also failed."@,
{
}

} // verus!
