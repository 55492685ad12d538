//! What a client on the local machine answers to an agent.
//!
//! `fs/*` requests go to the local file system, `terminal/*` requests to hidden
//! child processes, and `session/request_permission` to a [`PermissionResolver`].
//! Files and processes are handled by the embedding application; this module
//! decides what it does with them and what the agent is told.

use std::path::PathBuf;

use agent_client_protocol_schema::v1 as schema;
use vstd::prelude::*;

use crate::ids::{is_version_4_text, random_uuid_text};
use crate::lines::{slice_lines, sliced};
use crate::terminal::{byte_limit_for, fresh_terminal, output_byte_limit, TerminalState};
use crate::text::concat2;
use crate::text_map::TextMap;
use crate::transport::StreamSetup;

verus! {

/// The answer to a permission request.
pub enum PermissionOutcome {
    /// Nothing was approved.
    Cancelled,
    /// The user chose one of the options.
    Selected(schema::SelectedPermissionOutcome),
}

/// Decides permission requests. The embedding application implements this to ask
/// the user; policies can wrap another resolver to answer what they know.
pub trait PermissionResolver {
    fn resolve(&self, request: &schema::RequestPermissionRequest) -> Result<
        PermissionOutcome,
        String,
    >;
}

/// Denies every permission request. Used until the user can be asked, so that an
/// agent can never act as if the user had approved something.
pub struct AutoDenyPermissionResolver;

impl PermissionResolver for AutoDenyPermissionResolver {
    fn resolve(&self, _request: &schema::RequestPermissionRequest) -> (outcome: Result<
        PermissionOutcome,
        String,
    >)
        ensures
            outcome == Ok::<PermissionOutcome, String>(PermissionOutcome::Cancelled),
    {
        Ok(PermissionOutcome::Cancelled)
    }
}

/// Whatever an agent asks for, [`AutoDenyPermissionResolver`] approves nothing.
pub proof fn law_auto_deny_approves_nothing(
    resolver: AutoDenyPermissionResolver,
    request: schema::RequestPermissionRequest,
    outcome: Result<PermissionOutcome, String>,
)
    requires
        call_ensures(AutoDenyPermissionResolver::resolve, (&resolver, &request), outcome),
    ensures
        outcome == Ok::<PermissionOutcome, String>(PermissionOutcome::Cancelled),
{
}

/// A delegate for agents on the local machine, with a resolver `R` for
/// permissions and an entry `E` for each terminal.
pub struct LocalAcpDelegate<R, E> {
    permission_resolver: R,
    terminals: TextMap<E>,
}

/// What a [`LocalAcpDelegate`] holds.
pub struct DelegateView<R, E> {
    pub permission_resolver: R,
    pub terminals: Map<Seq<char>, E>,
}

impl<R, E> View for LocalAcpDelegate<R, E> {
    type V = DelegateView<R, E>;

    closed spec fn view(&self) -> DelegateView<R, E> {
        DelegateView {
            permission_resolver: self.permission_resolver,
            terminals: self.terminals@,
        }
    }
}

impl<R: PermissionResolver, E> LocalAcpDelegate<R, E> {
    /// Answers a permission request with what the resolver decides.
    pub fn request_permission(&self, request: schema::RequestPermissionRequest) -> (outcome: Result<
        PermissionOutcome,
        String,
    >)
        ensures
            call_ensures(R::resolve, (&self@.permission_resolver, &request), outcome),
    {
        self.permission_resolver.resolve(&request)
    }
}

/// A command that the agent wants to run in a terminal.
pub struct TerminalRequest {
    pub command: String,
    pub args: Vec<String>,
    pub env: Vec<(String, String)>,
    pub cwd: Option<PathBuf>,
    pub output_byte_limit: Option<u64>,
}

/// How to run it: nothing on its standard input, both of its output streams read
/// into `state`.
pub struct TerminalLaunch {
    pub program: String,
    pub args: Vec<String>,
    pub env: Vec<(String, String)>,
    pub current_dir: Option<PathBuf>,
    pub stdin: StreamSetup,
    pub stdout: StreamSetup,
    pub stderr: StreamSetup,
    pub state: TerminalState,
}

/// Begins the creation of a terminal.
pub fn launch_terminal(request: TerminalRequest) -> (launch: TerminalLaunch)
    ensures
        launch.program == request.command,
        launch.args == request.args,
        launch.env == request.env,
        launch.current_dir == request.cwd,
        launch.stdin == StreamSetup::Null,
        launch.stdout == StreamSetup::Piped,
        launch.stderr == StreamSetup::Piped,
        launch.state@ == fresh_terminal(byte_limit_for(request.output_byte_limit)),
{
    TerminalLaunch {
        program: request.command,
        args: request.args,
        env: request.env,
        current_dir: request.cwd,
        stdin: StreamSetup::Null,
        stdout: StreamSetup::Piped,
        stderr: StreamSetup::Piped,
        state: TerminalState::new(output_byte_limit(request.output_byte_limit)),
    }
}

/// What the agent is told about a terminal that is not there.
pub open spec fn unknown_terminal(terminal_id: Seq<char>) -> Seq<char> {
    "Unknown terminal: "@ + terminal_id
}

impl<R, E> LocalAcpDelegate<R, E> {
    /// A delegate without terminals.
    pub fn new(permission_resolver: R) -> (delegate: LocalAcpDelegate<R, E>)
        ensures
            delegate@ == (DelegateView { permission_resolver, terminals: Map::<Seq<char>, E>::empty() }),
    {
        LocalAcpDelegate { permission_resolver, terminals: TextMap::new() }
    }

    /// Keeps a terminal under `terminal_id`.
    pub fn add_terminal_with_id(&mut self, terminal_id: String, entry: E)
        ensures
            final(self)@ == (DelegateView {
                terminals: old(self)@.terminals.insert(terminal_id@, entry),
                ..old(self)@
            }),
    {
        let _ = self.terminals.insert(terminal_id, entry);
    }

    /// Keeps a terminal under a random id, which comes back.
    pub fn add_terminal(&mut self, entry: E) -> (terminal_id: String)
        ensures
            is_version_4_text(terminal_id@),
            final(self)@ == (DelegateView {
                terminals: old(self)@.terminals.insert(terminal_id@, entry),
                ..old(self)@
            }),
    {
        let terminal_id = random_uuid_text();
        self.add_terminal_with_id(terminal_id.clone(), entry);
        terminal_id
    }

    /// Ends the creation of a terminal for `command`: the terminal whose process
    /// was spawned is kept under a random id, which comes back. Where spawning
    /// failed, the agent is told.
    pub fn create_terminal<X>(&mut self, command: &str, spawned: Result<E, X>) -> (terminal_id:
        Result<String, String>)
        ensures
            match (spawned, terminal_id) {
                (Ok(entry), Ok(terminal_id)) => {
                    &&& is_version_4_text(terminal_id@)
                    &&& final(self)@ == (DelegateView {
                        terminals: old(self)@.terminals.insert(terminal_id@, entry),
                        ..old(self)@
                    })
                },
                (Err(_), Err(message)) => {
                    &&& message@ == "Failed to spawn terminal command "@ + command@
                    &&& final(self)@ == old(self)@
                },
                _ => false,
            },
    {
        match spawned {
            Ok(entry) => Ok(self.add_terminal(entry)),
            Err(_) => Err(concat2("Failed to spawn terminal command ", command)),
        }
    }

    /// The terminal that a request is for.
    pub fn terminal_parts(&self, terminal_id: &str) -> (entry: Result<&E, String>)
        ensures
            match entry {
                Ok(entry) => self@.terminals.contains_key(terminal_id@) && *entry
                    == self@.terminals[terminal_id@],
                Err(message) => !self@.terminals.contains_key(terminal_id@) && message@
                    == unknown_terminal(terminal_id@),
            },
    {
        match self.terminals.get(terminal_id) {
            Some(entry) => Ok(entry),
            None => Err(concat2("Unknown terminal: ", terminal_id)),
        }
    }

    /// Forgets a terminal and gives it back, so that its process can be killed.
    /// Releasing a terminal that is not there is no error.
    pub fn release_terminal(&mut self, terminal_id: &str) -> (entry: Option<E>)
        ensures
            final(self)@ == (DelegateView {
                terminals: old(self)@.terminals.remove(terminal_id@),
                ..old(self)@
            }),
            match entry {
                Some(entry) => old(self)@.terminals.contains_key(terminal_id@) && entry
                    == old(self)@.terminals[terminal_id@],
                None => !old(self)@.terminals.contains_key(terminal_id@),
            },
    {
        self.terminals.remove(terminal_id)
    }
}

/// Whether a file may be read: its path is absolute. Otherwise the agent is told.
pub fn check_read_path(is_absolute: bool) -> (checked: Result<(), String>)
    ensures
        match checked {
            Ok(_) => is_absolute,
            Err(message) => !is_absolute && message@ == "fs/read_text_file path must be absolute"@,
        },
{
    if is_absolute {
        Ok(())
    } else {
        Err("fs/read_text_file path must be absolute".to_owned())
    }
}

/// What a read answers: the lines asked for, or that the file at `path` cannot
/// be read.
pub open spec fn read_answer<X>(
    path: Seq<char>,
    contents: Result<String, X>,
    line: Option<u32>,
    limit: Option<u32>,
) -> Result<Seq<char>, Seq<char>> {
    match contents {
        Ok(contents) => Ok(sliced(contents@, line, limit)),
        Err(_) => Err("Failed to read "@ + path),
    }
}

/// The text of a result.
pub open spec fn text_result(result: Result<String, String>) -> Result<Seq<char>, Seq<char>> {
    match result {
        Ok(text) => Ok(text@),
        Err(message) => Err(message@),
    }
}

/// Answers a read with the contents of the file at `path`.
pub fn read_text_file<X>(
    path: &str,
    contents: Result<String, X>,
    line: Option<u32>,
    limit: Option<u32>,
) -> (answer: Result<String, String>)
    ensures
        text_result(answer) == read_answer(path@, contents, line, limit),
{
    match contents {
        Ok(contents) => Ok(slice_lines(contents.as_str(), line, limit)),
        Err(_) => Err(concat2("Failed to read ", path)),
    }
}

/// What comes first in a write.
#[derive(Debug, Clone, Copy, PartialEq, Eq)]
pub enum WriteStep {
    /// Create the directory of the file, then write.
    CreateDirectory,
    /// Write.
    Write,
}

/// Starts a write: the path must be absolute, and the directory of the file, if
/// it has one, is created first.
pub fn begin_write(is_absolute: bool, has_parent: bool) -> (step: Result<WriteStep, String>)
    ensures
        match step {
            Ok(step) => is_absolute && step == (if has_parent {
                WriteStep::CreateDirectory
            } else {
                WriteStep::Write
            }),
            Err(message) => !is_absolute && message@ == "fs/write_text_file path must be absolute"@,
        },
{
    if !is_absolute {
        Err("fs/write_text_file path must be absolute".to_owned())
    } else if has_parent {
        Ok(WriteStep::CreateDirectory)
    } else {
        Ok(WriteStep::Write)
    }
}

/// What became of creating a directory.
#[derive(Debug, Clone, Copy, PartialEq, Eq)]
pub enum DirectoryOutcome {
    Created,
    AlreadyExists,
    Failed,
}

/// Goes on with a write after creating the directory `parent`. One that is
/// already there will do.
pub fn after_create_directory(parent: &str, outcome: DirectoryOutcome) -> (next: Result<(), String>)
    ensures
        match next {
            Ok(_) => outcome != DirectoryOutcome::Failed,
            Err(message) => outcome == DirectoryOutcome::Failed && message@ == "Failed to create "@
                + parent@,
        },
{
    match outcome {
        DirectoryOutcome::Created => Ok(()),
        DirectoryOutcome::AlreadyExists => Ok(()),
        DirectoryOutcome::Failed => Err(concat2("Failed to create ", parent)),
    }
}

/// Ends a write to the file at `path`.
pub fn after_write(path: &str, written: bool) -> (answer: Result<(), String>)
    ensures
        match answer {
            Ok(_) => written,
            Err(message) => !written && message@ == "Failed to write "@ + path@,
        },
{
    if written {
        Ok(())
    } else {
        Err(concat2("Failed to write ", path))
    }
}

/// The next step of a read.
pub enum ReadProgress {
    /// Read the file.
    ReadFile,
    /// The answer: the text, or what the agent is told went wrong.
    Answered(Result<String, String>),
}

/// What a [`ReadProgress`] says.
pub enum ReadProgressView {
    ReadFile,
    Answered(Result<Seq<char>, Seq<char>>),
}

impl View for ReadProgress {
    type V = ReadProgressView;

    open spec fn view(&self) -> ReadProgressView {
        match self {
            ReadProgress::ReadFile => ReadProgressView::ReadFile,
            ReadProgress::Answered(answer) => ReadProgressView::Answered(text_result(*answer)),
        }
    }
}

/// Where a read of the file at `path` stands, given what became of reading it so
/// far. A path that is not absolute is refused, whatever was read; no file is
/// read for it.
pub open spec fn read_progress<X>(
    path: Seq<char>,
    is_absolute: bool,
    contents: Option<Result<String, X>>,
    line: Option<u32>,
    limit: Option<u32>,
) -> ReadProgressView {
    if !is_absolute {
        ReadProgressView::Answered(Err("fs/read_text_file path must be absolute"@))
    } else {
        match contents {
            Some(contents) => ReadProgressView::Answered(read_answer(path, contents, line, limit)),
            None => ReadProgressView::ReadFile,
        }
    }
}

/// The next step of a read of the file at `path`: what to do before anything was
/// read, and the answer after that.
pub fn next_read_step<X>(
    path: &str,
    is_absolute: bool,
    contents: Option<Result<String, X>>,
    line: Option<u32>,
    limit: Option<u32>,
) -> (progress: ReadProgress)
    ensures
        progress@ == read_progress(path@, is_absolute, contents, line, limit),
{
    if let Err(message) = check_read_path(is_absolute) {
        return ReadProgress::Answered(Err(message));
    }
    match contents {
        Some(contents) => ReadProgress::Answered(read_text_file(path, contents, line, limit)),
        None => ReadProgress::ReadFile,
    }
}

/// The next step of a write.
pub enum WriteProgress {
    /// Create the directory of the file.
    CreateDirectory,
    /// Write the file.
    WriteFile,
    /// The answer: that the file is written, or what the agent is told went wrong.
    Answered(Result<(), String>),
}

/// What a [`WriteProgress`] says.
pub enum WriteProgressView {
    CreateDirectory,
    WriteFile,
    Answered(Result<(), Seq<char>>),
}

impl View for WriteProgress {
    type V = WriteProgressView;

    open spec fn view(&self) -> WriteProgressView {
        match self {
            WriteProgress::CreateDirectory => WriteProgressView::CreateDirectory,
            WriteProgress::WriteFile => WriteProgressView::WriteFile,
            WriteProgress::Answered(answer) => WriteProgressView::Answered(
                match *answer {
                    Ok(_) => Ok(()),
                    Err(message) => Err(message@),
                },
            ),
        }
    }
}

/// Where a write of the file at `path` in the directory `parent` stands, given
/// what became of creating the directory and of writing so far. A path that is
/// not absolute is refused, whatever was done. The directory comes first; where
/// it cannot be had, nothing is written.
pub open spec fn write_progress(
    path: Seq<char>,
    is_absolute: bool,
    parent: Option<Seq<char>>,
    directory: Option<DirectoryOutcome>,
    written: Option<bool>,
) -> WriteProgressView {
    if !is_absolute {
        WriteProgressView::Answered(Err("fs/write_text_file path must be absolute"@))
    } else if parent is Some && directory is None {
        WriteProgressView::CreateDirectory
    } else if parent is Some && directory == Some(DirectoryOutcome::Failed) {
        WriteProgressView::Answered(Err("Failed to create "@ + parent->0))
    } else {
        match written {
            None => WriteProgressView::WriteFile,
            Some(true) => WriteProgressView::Answered(Ok(())),
            Some(false) => WriteProgressView::Answered(Err("Failed to write "@ + path)),
        }
    }
}

/// The next step of a write of the file at `path` in the directory `parent`.
pub fn next_write_step(
    path: &str,
    is_absolute: bool,
    parent: Option<&str>,
    directory: Option<DirectoryOutcome>,
    written: Option<bool>,
) -> (progress: WriteProgress)
    ensures
        progress@ == write_progress(
            path@,
            is_absolute,
            match parent {
                Some(parent) => Some(parent@),
                None => None,
            },
            directory,
            written,
        ),
{
    match begin_write(is_absolute, parent.is_some()) {
        Err(message) => {
            return WriteProgress::Answered(Err(message));
        },
        Ok(_) => {},
    }
    if let Some(parent) = parent {
        let Some(outcome) = directory else {
            return WriteProgress::CreateDirectory;
        };
        if let Err(message) = after_create_directory(parent, outcome) {
            return WriteProgress::Answered(Err(message));
        }
    }
    match written {
        Some(written) => WriteProgress::Answered(after_write(path, written)),
        None => WriteProgress::WriteFile,
    }
}

/// Paths that are not absolute are refused, for reading and for writing: no file
/// and no directory is ever touched for them.
pub proof fn law_relative_paths_are_refused<X>(
    path: Seq<char>,
    contents: Option<Result<String, X>>,
    line: Option<u32>,
    limit: Option<u32>,
    parent: Option<Seq<char>>,
    directory: Option<DirectoryOutcome>,
    written: Option<bool>,
)
    ensures
        read_progress(path, false, contents, line, limit) == ReadProgressView::Answered(
            Err("fs/read_text_file path must be absolute"@),
        ),
        write_progress(path, false, parent, directory, written) == WriteProgressView::Answered(
            Err("fs/write_text_file path must be absolute"@),
        ),
{
}

/// What was written is what is read: a write is answered with success only after
/// the file was written, and reading back the whole of what is then in the file
/// answers with exactly that.
pub proof fn law_reads_give_back_what_was_written<X>(
    path: Seq<char>,
    is_absolute: bool,
    parent: Option<Seq<char>>,
    directory: Option<DirectoryOutcome>,
    written: Option<bool>,
    contents: String,
)
    requires
        write_progress(path, is_absolute, parent, directory, written)
            == WriteProgressView::Answered(Ok(())),
    ensures
        written == Some(true),
        parent is Some ==> directory is Some && directory != Some(DirectoryOutcome::Failed),
        read_progress(path, is_absolute, Some(Ok::<String, X>(contents)), None, None)
            == ReadProgressView::Answered(Ok(contents@)),
{
}

/// A terminal can be used from when it is added until it is released, under its
/// own id only; other terminals are not touched by either.
pub proof fn law_terminals_live_until_released<E>(
    terminals: Map<Seq<char>, E>,
    terminal_id: Seq<char>,
    entry: E,
    other: Seq<char>,
)
    requires
        other != terminal_id,
    ensures
        terminals.insert(terminal_id, entry).contains_key(terminal_id),
        terminals.insert(terminal_id, entry)[terminal_id] == entry,
        !terminals.insert(terminal_id, entry).remove(terminal_id).contains_key(terminal_id),
        terminals.insert(terminal_id, entry).contains_key(other) == terminals.contains_key(other),
        terminals.remove(terminal_id).contains_key(other) == terminals.contains_key(other),
{
}

/// A read of an absolute path first reads the file, and is then answered with
/// the lines asked for, the whole of it where nothing is asked for; a file that
/// cannot be read is named.
pub proof fn law_reads_are_answered<X>(
    path: Seq<char>,
    contents: String,
    error: X,
    line: Option<u32>,
    limit: Option<u32>,
)
    ensures
        read_progress::<X>(path, true, None, line, limit) is ReadFile,
        read_progress(path, true, Some(Ok::<String, X>(contents)), None, None)
            == ReadProgressView::Answered(Ok(contents@)),
        read_progress(path, true, Some(Ok::<String, X>(contents)), line, limit)
            == ReadProgressView::Answered(Ok(sliced(contents@, line, limit))),
        read_progress(path, true, Some(Err::<String, X>(error)), line, limit)
            == ReadProgressView::Answered(Err("Failed to read "@ + path)),
        read_answer(path, Ok::<String, X>(contents), line, limit) == Ok::<Seq<char>, Seq<char>>(
            sliced(contents@, line, limit),
        ),
        read_answer(path, Err::<String, X>(error), line, limit) == Err::<Seq<char>, Seq<char>>(
            "Failed to read "@ + path,
        ),
{
}

/// A write to an absolute path creates the directory, where there is one to
/// create, then writes, and then is answered; a directory that is already there
/// will do, one that cannot be had ends the write, and what failed is named.
pub proof fn law_writes_are_answered(
    path: Seq<char>,
    parent: Seq<char>,
    directory: Option<DirectoryOutcome>,
    outcome: DirectoryOutcome,
    written: Option<bool>,
)
    requires
        outcome is Created || outcome is AlreadyExists,
    ensures
        write_progress(path, true, Some(parent), None, written) is CreateDirectory,
        write_progress(path, true, Some(parent), Some(DirectoryOutcome::Failed), written)
            == WriteProgressView::Answered(Err("Failed to create "@ + parent)),
        write_progress(path, true, Some(parent), Some(outcome), None) is WriteFile,
        write_progress(path, true, Some(parent), Some(outcome), Some(true))
            == WriteProgressView::Answered(Ok(())),
        write_progress(path, true, Some(parent), Some(outcome), Some(false))
            == WriteProgressView::Answered(Err("Failed to write "@ + path)),
        write_progress(path, true, None, directory, None) is WriteFile,
        write_progress(path, true, None, directory, Some(true)) == WriteProgressView::Answered(
            Ok(()),
        ),
        write_progress(path, true, None, directory, Some(false)) == WriteProgressView::Answered(
            Err("Failed to write "@ + path),
        ),
{
}

/// What is said of an answer is said of its text or its failure; a terminal that
/// is not there is named.
pub proof fn law_answer_views_are_faithful(text: String, terminal_id: Seq<char>)
    ensures
        text_result(Ok(text)) == Ok::<Seq<char>, Seq<char>>(text@),
        text_result(Err(text)) == Err::<Seq<char>, Seq<char>>(text@),
        ReadProgress::ReadFile@ is ReadFile,
        ReadProgress::Answered(Ok(text))@ == ReadProgressView::Answered(Ok(text@)),
        ReadProgress::Answered(Err(text))@ == ReadProgressView::Answered(Err(text@)),
        WriteProgress::CreateDirectory@ is CreateDirectory,
        WriteProgress::WriteFile@ is WriteFile,
        WriteProgress::Answered(Ok(()))@ == WriteProgressView::Answered(Ok(())),
        WriteProgress::Answered(Err(text))@ == WriteProgressView::Answered(Err(text@)),
        unknown_terminal(terminal_id) == "Unknown terminal: "@ + terminal_id,
{
}

} // verus!
