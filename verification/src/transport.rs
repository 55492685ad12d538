//! Newline-delimited JSON over the standard streams of an agent process.
//!
//! One complete JSON-RPC message stands on each line. This module decides how
//! lines are read and written, and how the process is shut down; the embedding
//! application does the reading, writing and waiting.

use vstd::prelude::*;

use crate::lines::has_line_feed;
use crate::text::concat2;
use crate::white_space::{
    end_trimmed, is_white_space, law_trimming_finds_the_text, lemma_trimmed_line, trim, trim_end,
    trimmed,
};

verus! {

/// The message that a read delivers for a line: the empty message at the end of
/// the stream (nothing was read), none for a blank line, and otherwise the line
/// without the white space around it.
pub open spec fn delivered(bytes_read: usize, line: Seq<char>) -> Option<Seq<char>> {
    if bytes_read == 0 {
        Some(seq![])
    } else if trimmed(line).len() == 0 {
        None
    } else {
        Some(trimmed(line))
    }
}

/// The message to deliver after `bytes_read` bytes were read into `line`, if it
/// holds one. Otherwise the next line is read.
pub fn read_step(bytes_read: usize, line: &str) -> (message: Option<String>)
    ensures
        match message {
            Some(message) => delivered(bytes_read, line@) == Some(message@),
            None => delivered(bytes_read, line@) is None,
        },
{
    if bytes_read == 0 {
        // An empty message means that the transport is closed.
        return Some(String::new());
    }
    let message = trim(line);
    if message.unicode_len() == 0 {
        // Blank lines between messages are skipped.
        None
    } else {
        Some(message.to_owned())
    }
}

/// The line that carries `message`. A message with a line feed in it would
/// corrupt the stream and is refused.
pub fn frame(message: &str) -> (line: Result<String, String>)
    ensures
        match line {
            Ok(line) => !message@.contains('\n') && line@ == message@.push('\n'),
            Err(error) => message@.contains('\n') && error@
                == "NDJSON message must not contain newlines"@,
        },
{
    if has_line_feed(message) {
        return Err("NDJSON message must not contain newlines".to_owned());
    }
    let line = concat2(message, "\n");
    proof {
        reveal_strlit("\n");
        assert(line@ =~= message@.push('\n'));
    }
    Ok(line)
}

/// What a standard stream of a spawned process is connected to.
#[derive(Debug, Clone, Copy, PartialEq, Eq)]
pub enum StreamSetup {
    /// Nothing: there is nothing to read, and what is written is lost.
    Null,
    /// A pipe that this client holds the other end of.
    Piped,
}

/// The standard streams to spawn the agent process with.
pub struct AgentStdio {
    pub stdin: StreamSetup,
    pub stdout: StreamSetup,
    pub stderr: StreamSetup,
}

/// The agent process is talked to over its input and output, and its error
/// output is read too.
pub fn agent_stdio() -> (stdio: AgentStdio)
    ensures
        stdio.stdin == StreamSetup::Piped,
        stdio.stdout == StreamSetup::Piped,
        stdio.stderr == StreamSetup::Piped,
{
    AgentStdio {
        stdin: StreamSetup::Piped,
        stdout: StreamSetup::Piped,
        stderr: StreamSetup::Piped,
    }
}

/// What is reported when the agent process cannot be spawned.
pub fn spawn_error(cause: &str) -> (message: String)
    ensures
        message@ == "Failed to spawn ACP agent process: "@ + cause@,
{
    concat2("Failed to spawn ACP agent process: ", cause)
}

/// The three standard streams of the agent process, where the process has them all.
pub fn wire_stdio<I, O, E>(stdin: Option<I>, stdout: Option<O>, stderr: Option<E>) -> (streams: Result<
    (I, O, E),
    String,
>)
    ensures
        match streams {
            Ok((i, o, e)) => stdin == Some(i) && stdout == Some(o) && stderr == Some(e),
            Err(message) => if stdin is None {
                message@ == "Failed to get agent stdin"@
            } else if stdout is None {
                message@ == "Failed to get agent stdout"@
            } else {
                stderr is None && message@ == "Failed to get agent stderr"@
            },
        },
{
    let Some(i) = stdin else {
        return Err("Failed to get agent stdin".to_owned());
    };
    let Some(o) = stdout else {
        return Err("Failed to get agent stdout".to_owned());
    };
    let Some(e) = stderr else {
        return Err("Failed to get agent stderr".to_owned());
    };
    Ok((i, o, e))
}

/// What became of reading a line from the error stream of the agent.
pub enum StderrRead {
    Closed,
    Line(String),
    Failed(String),
}

/// What to do after it: the line to log, if any, and whether to read on.
pub struct StderrStep {
    pub log: Option<String>,
    pub read_on: bool,
}

/// Mirrors one line of the error stream into the log.
pub fn stderr_step(read: StderrRead) -> (step: StderrStep)
    ensures
        match read {
            StderrRead::Closed => step.log is None && !step.read_on,
            StderrRead::Line(line) => step.log matches Some(log) && log@ == "[stderr] "@
                + end_trimmed(line@) && step.read_on,
            StderrRead::Failed(error) => step.log matches Some(log) && log@
                == "[error] Error reading stderr: "@ + error@ && !step.read_on,
        },
{
    match read {
        StderrRead::Closed => StderrStep { log: None, read_on: false },
        StderrRead::Line(line) => StderrStep {
            log: Some(concat2("[stderr] ", trim_end(line.as_str()))),
            read_on: true,
        },
        StderrRead::Failed(error) => StderrStep {
            log: Some(concat2("[error] Error reading stderr: ", error.as_str())),
            read_on: false,
        },
    }
}

/// How many seconds a process that was asked to terminate gets before it is killed.
pub const SIGTERM_TIMEOUT_SECS: u64 = 2;

/// What to do next to shut the agent process down.
#[derive(Debug, Clone, Copy, PartialEq, Eq)]
pub enum ShutdownAction {
    /// Wait for the process to exit, for a limited time.
    AwaitExit,
    /// Ask the process to terminate.
    Terminate,
    /// Wait for [`SIGTERM_TIMEOUT_SECS`].
    Grace,
    /// Kill the process.
    Kill,
    /// Wait for the task that reads the error stream.
    JoinStderr,
    /// Nothing: the process is shut down.
    Finished,
}

/// What happened during shutdown.
#[derive(Debug, Clone, Copy, PartialEq, Eq)]
pub enum ShutdownEvent {
    /// The process exited.
    Exited,
    /// The time to wait for the process is over.
    TimedOut,
    /// The process was asked to terminate.
    TerminateSent,
    /// The process could not be asked to terminate.
    TerminateFailed,
    /// The process was killed, or was already gone.
    Killed,
    /// The task that reads the error stream is over.
    StderrJoined,
}

/// The first action of a shutdown. Without a process there is nothing to do: it
/// was shut down before.
pub fn begin_shutdown(has_process: bool) -> (action: ShutdownAction)
    ensures
        action == (if has_process {
            ShutdownAction::AwaitExit
        } else {
            ShutdownAction::Finished
        }),
{
    if has_process {
        ShutdownAction::AwaitExit
    } else {
        ShutdownAction::Finished
    }
}

/// The action after `event`. A process that does not exit in time is killed;
/// where the platform has signals, it is first asked to terminate and, if it
/// could be asked, given time for that.
pub open spec fn action_after(
    action: ShutdownAction,
    event: ShutdownEvent,
    has_signals: bool,
) -> ShutdownAction {
    match (action, event) {
        (ShutdownAction::AwaitExit, ShutdownEvent::Exited) => ShutdownAction::JoinStderr,
        (ShutdownAction::AwaitExit, ShutdownEvent::TimedOut) => if has_signals {
            ShutdownAction::Terminate
        } else {
            ShutdownAction::Kill
        },
        (ShutdownAction::Terminate, ShutdownEvent::TerminateSent) => ShutdownAction::Grace,
        (ShutdownAction::Terminate, ShutdownEvent::TerminateFailed) => ShutdownAction::Kill,
        (ShutdownAction::Grace, ShutdownEvent::TimedOut) => ShutdownAction::Kill,
        (ShutdownAction::Kill, ShutdownEvent::Killed) => ShutdownAction::JoinStderr,
        (ShutdownAction::JoinStderr, ShutdownEvent::StderrJoined) => ShutdownAction::Finished,
        _ => action,
    }
}

/// The action after `event`.
pub fn next_shutdown_action(
    action: ShutdownAction,
    event: ShutdownEvent,
    has_signals: bool,
) -> (next: ShutdownAction)
    ensures
        next == action_after(action, event, has_signals),
{
    match (action, event) {
        (ShutdownAction::AwaitExit, ShutdownEvent::Exited) => ShutdownAction::JoinStderr,
        (ShutdownAction::AwaitExit, ShutdownEvent::TimedOut) => if has_signals {
            ShutdownAction::Terminate
        } else {
            ShutdownAction::Kill
        },
        (ShutdownAction::Terminate, ShutdownEvent::TerminateSent) => ShutdownAction::Grace,
        (ShutdownAction::Terminate, ShutdownEvent::TerminateFailed) => ShutdownAction::Kill,
        (ShutdownAction::Grace, ShutdownEvent::TimedOut) => ShutdownAction::Kill,
        (ShutdownAction::Kill, ShutdownEvent::Killed) => ShutdownAction::JoinStderr,
        (ShutdownAction::JoinStderr, ShutdownEvent::StderrJoined) => ShutdownAction::Finished,
        (unchanged, _) => unchanged,
    }
}

/// The number of characters in the first line of a stream, its line feed included.
pub open spec fn first_line_len(stream: Seq<char>) -> nat
    decreases stream.len(),
{
    if stream.len() == 0 {
        0
    } else if stream[0] == '\n' {
        1
    } else {
        1 + first_line_len(stream.drop_first())
    }
}

/// The messages that reads deliver from a stream before it closes.
pub open spec fn stream_messages(stream: Seq<char>) -> Seq<Seq<char>>
    decreases stream.len(),
{
    let len = first_line_len(stream);
    if stream.len() == 0 || len == 0 || len > stream.len() {
        seq![]
    } else {
        let later = stream_messages(stream.skip(len as int));
        match delivered(1, stream.take(len as int)) {
            Some(message) => seq![message] + later,
            None => later,
        }
    }
}

/// What writing messages one after the other puts into a stream.
pub open spec fn framed(messages: Seq<Seq<char>>) -> Seq<char>
    decreases messages.len(),
{
    if messages.len() == 0 {
        seq![]
    } else {
        messages[0].push('\n') + framed(messages.drop_first())
    }
}

/// Whether a message goes through the transport as it is: it has no line feed in
/// it, is not empty, and does not start or end with white space. Every JSON
/// object on one line, without white space around it, is such a message.
pub open spec fn is_plain_message(message: Seq<char>) -> bool {
    &&& !message.contains('\n')
    &&& message.len() > 0
    &&& !is_white_space(message[0])
    &&& !is_white_space(message.last())
}

proof fn lemma_first_line(message: Seq<char>, rest: Seq<char>)
    requires
        !message.contains('\n'),
    ensures
        first_line_len(message.push('\n') + rest) == message.len() + 1,
    decreases message.len(),
{
    let stream = message.push('\n') + rest;
    if message.len() > 0 {
        let shorter = message.drop_first();
        assert(!shorter.contains('\n')) by {
            if shorter.contains('\n') {
                let k = choose|k: int| 0 <= k < shorter.len() && shorter[k] == '\n';
                assert(message[k + 1] == '\n');
            }
        }
        lemma_first_line(shorter, rest);
        assert(message.contains(message[0]));
        assert(stream.drop_first() =~= shorter.push('\n') + rest);
    } else {
        assert(stream[0] == '\n');
    }
}

/// The messages that lines carry: each line without the white space around it,
/// blank lines left out.
pub open spec fn carried(lines: Seq<Seq<char>>) -> Seq<Seq<char>>
    decreases lines.len(),
{
    if lines.len() == 0 {
        seq![]
    } else if trimmed(lines[0]).len() == 0 {
        carried(lines.drop_first())
    } else {
        seq![trimmed(lines[0])] + carried(lines.drop_first())
    }
}

/// What goes into a stream line by line comes out message by message, in order:
/// each line without the white space around it, and nothing for the blank lines,
/// wherever they stand.
pub proof fn law_lines_are_read_as_messages(lines: Seq<Seq<char>>)
    requires
        forall|i: int| 0 <= i < lines.len() ==> !(#[trigger] lines[i]).contains('\n'),
    ensures
        stream_messages(framed(lines)) == carried(lines),
    decreases lines.len(),
{
    if lines.len() > 0 {
        let line = lines[0];
        let rest = framed(lines.drop_first());
        let stream = framed(lines);
        let len = line.len() + 1;
        assert(!line.contains('\n'));
        assert forall|i: int| 0 <= i < lines.drop_first().len() implies !(
        #[trigger] lines.drop_first()[i]).contains('\n') by {
            assert(lines.drop_first()[i] == lines[i + 1]);
        }
        law_lines_are_read_as_messages(lines.drop_first());
        lemma_first_line(line, rest);
        assert(stream.take(len as int) =~= line.push('\n'));
        assert(stream.skip(len as int) =~= rest);
        lemma_trimmed_line(line);
    }
}

/// Lines with the blank ones left out.
pub open spec fn without_blanks(lines: Seq<Seq<char>>) -> Seq<Seq<char>>
    decreases lines.len(),
{
    if lines.len() == 0 {
        seq![]
    } else if trimmed(lines[0]).len() == 0 {
        without_blanks(lines.drop_first())
    } else {
        seq![lines[0]] + without_blanks(lines.drop_first())
    }
}

/// What is written is what is read: messages come back whole, in order, and
/// nothing else does, whatever blank lines stand between, before or after them.
pub proof fn law_messages_come_back(lines: Seq<Seq<char>>)
    requires
        forall|i: int|
            0 <= i < lines.len() ==> is_plain_message(#[trigger] lines[i]) || (trimmed(
                lines[i],
            ).len() == 0 && !lines[i].contains('\n')),
    ensures
        stream_messages(framed(lines)) == without_blanks(lines),
        (forall|i: int| 0 <= i < lines.len() ==> is_plain_message(#[trigger] lines[i]))
            ==> stream_messages(framed(lines)) == lines,
{
    law_lines_are_read_as_messages(lines);
    lemma_plain_lines(lines);
}

proof fn lemma_plain_lines(lines: Seq<Seq<char>>)
    requires
        forall|i: int|
            0 <= i < lines.len() ==> is_plain_message(#[trigger] lines[i]) || (trimmed(
                lines[i],
            ).len() == 0 && !lines[i].contains('\n')),
    ensures
        carried(lines) == without_blanks(lines),
        (forall|i: int| 0 <= i < lines.len() ==> is_plain_message(#[trigger] lines[i]))
            ==> without_blanks(lines) == lines,
    decreases lines.len(),
{
    if lines.len() > 0 {
        let rest = lines.drop_first();
        assert forall|i: int| 0 <= i < rest.len() implies is_plain_message(#[trigger] rest[i]) || (
        trimmed(rest[i]).len() == 0 && !rest[i].contains('\n')) by {
            assert(rest[i] == lines[i + 1]);
        }
        lemma_plain_lines(rest);
        let line = lines[0];
        if is_plain_message(line) {
            assert(trimmed(line) == line);
        }
        if forall|i: int| 0 <= i < lines.len() ==> is_plain_message(#[trigger] lines[i]) {
            assert forall|i: int| 0 <= i < rest.len() implies is_plain_message(
                #[trigger] rest[i],
            ) by {
                assert(rest[i] == lines[i + 1]);
            }
            assert(is_plain_message(line));
            assert(seq![line] + rest =~= lines);
        }
    }
}

/// An empty message is delivered at the end of the stream and at no other time.
pub proof fn law_an_empty_message_means_closed(bytes_read: usize, line: Seq<char>)
    ensures
        delivered(bytes_read, line) == Some(Seq::<char>::empty()) <==> bytes_read == 0,
{
}

/// How many events a shutdown still needs at most.
pub open spec fn shutdown_steps_left(action: ShutdownAction) -> nat {
    match action {
        ShutdownAction::AwaitExit => 5,
        ShutdownAction::Terminate => 4,
        ShutdownAction::Grace => 3,
        ShutdownAction::Kill => 2,
        ShutdownAction::JoinStderr => 1,
        ShutdownAction::Finished => 0,
    }
}

/// A shutdown never goes back, and every event that its action waits for brings
/// it nearer to its end.
pub proof fn law_shutdown_ends(action: ShutdownAction, event: ShutdownEvent, has_signals: bool)
    ensures
        action_after(action, event, has_signals) == action || shutdown_steps_left(
            action_after(action, event, has_signals),
        ) < shutdown_steps_left(action),
        action_after(action, event, has_signals) == ShutdownAction::Finished ==> action
            == ShutdownAction::Finished || action == ShutdownAction::JoinStderr,
{
}

/// A process that exits in time is neither asked to terminate nor killed; one
/// that does not is killed, whether or not it could be asked to terminate first.
pub proof fn law_only_late_processes_are_killed(has_signals: bool)
    ensures
        action_after(ShutdownAction::AwaitExit, ShutdownEvent::Exited, has_signals)
            == ShutdownAction::JoinStderr,
        ({
            let late = action_after(
                ShutdownAction::AwaitExit,
                ShutdownEvent::TimedOut,
                has_signals,
            );
            &&& late == ShutdownAction::Terminate || late == ShutdownAction::Kill
            &&& late == ShutdownAction::Terminate ==> {
                &&& action_after(late, ShutdownEvent::TerminateFailed, has_signals)
                    == ShutdownAction::Kill
                &&& action_after(
                    action_after(late, ShutdownEvent::TerminateSent, has_signals),
                    ShutdownEvent::TimedOut,
                    has_signals,
                ) == ShutdownAction::Kill
            }
        }),
{
}

/// A read delivers what stands on a line between the white space around it, as it
/// is; a line of white space alone delivers nothing, and the end of the stream
/// the empty message.
pub proof fn law_reads_deliver_what_is_on_the_line(
    bytes_read: usize,
    before: Seq<char>,
    message: Seq<char>,
    after: Seq<char>,
    line: Seq<char>,
)
    requires
        forall|j: int| 0 <= j < before.len() ==> is_white_space(#[trigger] before[j]),
        forall|j: int| 0 <= j < after.len() ==> is_white_space(#[trigger] after[j]),
        message.len() > 0,
        !is_white_space(message[0]),
        !is_white_space(message.last()),
    ensures
        bytes_read > 0 ==> delivered(bytes_read, before + message + after) == Some(message),
        bytes_read > 0 ==> delivered(bytes_read, before) is None,
        delivered(0, line) is Some,
        (delivered(0, line)->0).len() == 0,
{
    law_trimming_finds_the_text(before, message, after);
}

/// What each event does to a shutdown: a process that exits while that is waited
/// for, or that was killed, leaves only the reading of its errors to wait for; a
/// late one is asked to terminate where there are signals, and killed where there
/// are none, where it could not be asked, or where it is still late. Any other
/// event changes nothing.
pub proof fn law_what_events_do_to_a_shutdown(
    action: ShutdownAction,
    event: ShutdownEvent,
    has_signals: bool,
)
    ensures
        action_after(action, event, has_signals) == ShutdownAction::JoinStderr <==> (action
            == ShutdownAction::AwaitExit && event == ShutdownEvent::Exited) || (action
            == ShutdownAction::Kill && event == ShutdownEvent::Killed) || (action
            == ShutdownAction::JoinStderr && event != ShutdownEvent::StderrJoined),
        action_after(action, event, has_signals) == ShutdownAction::Terminate <==> (action
            == ShutdownAction::AwaitExit && event == ShutdownEvent::TimedOut && has_signals) || (
        action == ShutdownAction::Terminate && event != ShutdownEvent::TerminateSent && event
            != ShutdownEvent::TerminateFailed),
        action_after(action, event, has_signals) == ShutdownAction::Kill <==> (action
            == ShutdownAction::AwaitExit && event == ShutdownEvent::TimedOut && !has_signals) || (
        action == ShutdownAction::Terminate && event == ShutdownEvent::TerminateFailed) || (action
            == ShutdownAction::Grace && event == ShutdownEvent::TimedOut) || (action
            == ShutdownAction::Kill && event != ShutdownEvent::Killed),
        action_after(action, event, has_signals) == ShutdownAction::Grace <==> (action
            == ShutdownAction::Terminate && event == ShutdownEvent::TerminateSent) || (action
            == ShutdownAction::Grace && event != ShutdownEvent::TimedOut),
        action_after(action, event, has_signals) == ShutdownAction::AwaitExit <==> action
            == ShutdownAction::AwaitExit && event != ShutdownEvent::Exited && event
            != ShutdownEvent::TimedOut,
        action_after(action, event, has_signals) == ShutdownAction::Finished <==> action
            == ShutdownAction::Finished || (action == ShutdownAction::JoinStderr && event
            == ShutdownEvent::StderrJoined),
{
}

/// A process that was asked to terminate gets two seconds for it.
pub proof fn law_termination_gets_time()
    ensures
        SIGTERM_TIMEOUT_SECS == 2,
{
}

/// What is framed is read back: every message without a line feed has a line, and
/// the line, once read, delivers the message if that neither starts nor ends with
/// white space.
pub proof fn law_framed_messages_are_read_back(
    message: &str,
    line: Result<String, String>,
    bytes_read: usize,
)
    requires
        call_ensures(frame, (message,), line),
    ensures
        line is Ok <==> !message@.contains('\n'),
        line is Ok && bytes_read > 0 && is_plain_message(message@) ==> delivered(
            bytes_read,
            (line->Ok_0)@,
        ) == Some(message@),
        line is Ok ==> framed(seq![message@]) == (line->Ok_0)@,
{
    if line is Ok {
        let one = seq![message@];
        assert(one.drop_first() =~= seq![]);
        assert(framed(one.drop_first()) =~= seq![]);
        assert(framed(one) =~= (line->Ok_0)@);
        if is_plain_message(message@) {
            law_trimming_finds_the_text(seq![], message@, seq!['\n']);
            assert(seq![] + message@ + seq!['\n'] =~= (line->Ok_0)@);
        }
    }
}

} // verus!
