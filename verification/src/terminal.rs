//! State of the terminals that an agent runs on the client.

use vstd::prelude::*;
use vstd::utf8::*;

use crate::lines::split_text;
use crate::text::{
    byte_len, decimal, decimal_text, law_decimals_spell_their_number, lemma_encode_concat,
    lemma_same_bytes, spelled_number,
};

verus! {

broadcast use {encode_utf8_valid_utf8, encode_utf8_decode_utf8};

/// The longest tail of `text` whose encoding has at most `limit` bytes.
pub open spec fn longest_tail(text: Seq<char>, limit: nat) -> Seq<char>
    decreases text.len(),
{
    if text.len() == 0 || byte_len(text) <= limit {
        text
    } else {
        longest_tail(text.drop_first(), limit)
    }
}

/// Whether `tail` is what remains of `text` after dropping characters from the front.
pub open spec fn is_tail_of(tail: Seq<char>, text: Seq<char>) -> bool {
    tail.len() <= text.len() && tail == text.skip(text.len() - tail.len())
}

/// The byte offset of the first character boundary from which at most `limit`
/// bytes remain is where the longest tail starts.
proof fn lemma_cut(text: Seq<char>, limit: nat, start: int)
    requires
        byte_len(text) > limit,
        byte_len(text) - limit <= start <= byte_len(text),
        is_char_boundary(encode_utf8(text), start),
        forall|i: int|
            byte_len(text) - limit <= i < start ==> !#[trigger] is_char_boundary(
                encode_utf8(text),
                i,
            ),
    ensures
        encode_utf8(longest_tail(text, limit)) == encode_utf8(text).subrange(
            start,
            byte_len(text) as int,
        ),
    decreases text.len(),
{
    let bytes = encode_utf8(text);
    let rest = text.drop_first();
    let tail = encode_utf8(rest);
    encode_utf8_first_scalar(text);
    let width = length_of_first_scalar(bytes);
    assert(pop_first_scalar(bytes) =~= tail);
    assert(is_char_boundary(tail, start - width));
    assert(start >= width);
    assert(bytes.len() == width + tail.len());
    if tail.len() <= limit {
        assert(is_char_boundary(bytes, width)) by {
            assert(is_char_boundary(tail, 0));
        }
        assert(start == width);
        assert(longest_tail(rest, limit) == rest);
        assert(bytes.subrange(width, bytes.len() as int) =~= tail);
    } else {
        assert forall|i: int| tail.len() - limit <= i < start - width implies
            !#[trigger] is_char_boundary(tail, i) by {
            assert(!is_char_boundary(bytes, i + width));
        }
        lemma_cut(rest, limit, start - width);
        assert(tail.subrange(start - width, tail.len() as int) =~= bytes.subrange(
            start,
            bytes.len() as int,
        ));
    }
}

/// Truncates from the front of `output` so that at most `limit` bytes remain,
/// cutting only between characters.
pub fn truncate_to_byte_limit(output: &mut String, limit: usize)
    ensures
        final(output)@ == longest_tail(old(output)@, limit as nat),
{
    let text = output.as_str();
    let bytes = text.as_bytes();
    let len = bytes.len();
    if len <= limit {
        return;
    }
    let mut start: usize = len - limit;
    while start < len && !text.is_char_boundary(start)
        invariant
            text@ == output@,
            len == byte_len(text@),
            limit < len,
            len - limit <= start <= len,
            forall|i: int|
                len - limit <= i < start ==> !#[trigger] is_char_boundary(encode_utf8(text@), i),
        decreases len - start,
    {
        start += 1;
    }
    proof {
        is_char_boundary_start_end_of_seq(encode_utf8(text@));
        lemma_cut(text@, limit as nat, start as int);
    }
    let (_, tail) = split_text(text, start);
    proof {
        lemma_same_bytes(tail@, longest_tail(text@, limit as nat));
    }
    let kept = tail.to_owned();
    *output = kept;
}

/// How a terminal's command ended.
pub struct TerminalExitStatus {
    /// The exit code, unless the command was ended by a signal or its code is negative.
    pub exit_code: Option<u32>,
    /// The number of the signal that ended the command, in decimal.
    pub signal: Option<String>,
}

/// What a [`TerminalExitStatus`] says.
pub struct ExitStatusView {
    pub exit_code: Option<u32>,
    pub signal: Option<Seq<char>>,
}

impl View for TerminalExitStatus {
    type V = ExitStatusView;

    open spec fn view(&self) -> ExitStatusView {
        ExitStatusView {
            exit_code: self.exit_code,
            signal: match self.signal {
                Some(text) => Some(text@),
                None => None,
            },
        }
    }
}

impl TerminalExitStatus {
    /// A copy of the status.
    pub fn copied(&self) -> (copy: TerminalExitStatus)
        ensures
            copy@ == self@,
    {
        TerminalExitStatus { exit_code: self.exit_code, signal: self.signal.clone() }
    }
}

/// The status that a process's exit code and ending signal stand for.
pub open spec fn exit_status_of(code: Option<i32>, signal: Option<i32>) -> ExitStatusView {
    ExitStatusView {
        exit_code: match code {
            Some(c) if c >= 0 => Some(c as u32),
            _ => None,
        },
        signal: match signal {
            Some(s) => Some(decimal(s as int)),
            None => None,
        },
    }
}

/// Turns a process's exit code and ending signal into an exit status.
pub fn exit_status_to_acp(code: Option<i32>, signal: Option<i32>) -> (status: TerminalExitStatus)
    ensures
        status@ == exit_status_of(code, signal),
{
    let exit_code = match code {
        Some(c) => if c >= 0 {
            Some(c as u32)
        } else {
            None
        },
        None => None,
    };
    let signal = match signal {
        Some(s) => Some(decimal_text(s)),
        None => None,
    };
    TerminalExitStatus { exit_code, signal }
}

/// What asking a terminal's process for its status brought back.
pub enum ExitPoll {
    /// The process was already taken away.
    NoChild,
    /// The process is still running.
    Running,
    /// The process has ended.
    Exited { code: Option<i32>, signal: Option<i32> },
    /// The status could not be had.
    Failed,
}

/// Cap on retained terminal output where the agent sets none.
pub const DEFAULT_TERMINAL_OUTPUT_BYTE_LIMIT: usize = 1048576;

/// The number of bytes of output to retain for the agent's `requested` cap.
pub open spec fn byte_limit_for(requested: Option<u64>) -> usize {
    match requested {
        Some(limit) => if limit <= usize::MAX {
            limit as usize
        } else {
            usize::MAX
        },
        None => DEFAULT_TERMINAL_OUTPUT_BYTE_LIMIT,
    }
}

/// The number of bytes of output to retain for the agent's `requested` cap: the
/// cap itself, the largest `usize` where it does not fit, or the default.
pub fn output_byte_limit(requested: Option<u64>) -> (limit: usize)
    ensures
        limit == byte_limit_for(requested),
{
    match requested {
        Some(limit) => if limit <= usize::MAX as u64 {
            limit as usize
        } else {
            usize::MAX
        },
        None => DEFAULT_TERMINAL_OUTPUT_BYTE_LIMIT,
    }
}

/// Retained output and exit status of one terminal.
pub struct TerminalState {
    output: String,
    truncated: bool,
    byte_limit: usize,
    exit_status: Option<TerminalExitStatus>,
}

/// What a [`TerminalState`] holds.
pub struct TerminalView {
    pub output: Seq<char>,
    pub truncated: bool,
    pub byte_limit: usize,
    pub exit_status: Option<ExitStatusView>,
}

/// A terminal that has printed nothing yet.
pub open spec fn fresh_terminal(byte_limit: usize) -> TerminalView {
    TerminalView { output: seq![], truncated: false, byte_limit, exit_status: None }
}

/// The terminal after its command printed `chunk`.
pub open spec fn after_output(state: TerminalView, chunk: Seq<char>) -> TerminalView {
    TerminalView {
        output: longest_tail(state.output + chunk, state.byte_limit as nat),
        truncated: state.truncated || byte_len(state.output + chunk) > state.byte_limit,
        ..state
    }
}

/// The terminal after its process was asked for its status.
pub open spec fn after_poll(state: TerminalView, poll: ExitPoll) -> TerminalView {
    match poll {
        ExitPoll::Exited { code, signal } if state.exit_status is None => TerminalView {
            exit_status: Some(exit_status_of(code, signal)),
            ..state
        },
        _ => state,
    }
}

/// What became of reading a line that a command printed.
pub enum LineRead {
    Line(String),
    Closed,
    Failed,
}

/// An answer to a request for a terminal's output.
pub struct TerminalOutput {
    pub output: String,
    pub truncated: bool,
    pub exit_status: Option<TerminalExitStatus>,
}

/// The next step of waiting for a terminal to exit.
pub enum WaitStep {
    /// The command has ended with this status.
    Exited(TerminalExitStatus),
    /// Look again after this many milliseconds.
    PollAgain { after_millis: u64 },
}

/// Interval for polling a terminal for exit, in milliseconds.
pub const TERMINAL_EXIT_POLL_INTERVAL_MILLIS: u64 = 50;

impl View for TerminalState {
    type V = TerminalView;

    closed spec fn view(&self) -> TerminalView {
        TerminalView {
            output: self.output@,
            truncated: self.truncated,
            byte_limit: self.byte_limit,
            exit_status: match self.exit_status {
                Some(status) => Some(status@),
                None => None,
            },
        }
    }
}

impl TerminalState {
    #[verifier::type_invariant]
    spec fn output_fits(self) -> bool {
        byte_len(self.output@) <= self.byte_limit
    }

    /// A terminal that retains at most `byte_limit` bytes of output.
    pub fn new(byte_limit: usize) -> (state: TerminalState)
        ensures
            state@ == fresh_terminal(byte_limit),
    {
        TerminalState { output: String::new(), truncated: false, byte_limit, exit_status: None }
    }

    /// Appends `chunk` to the retained output and drops from the front what no
    /// longer fits.
    pub fn push_output(&mut self, chunk: &str)
        ensures
            final(self)@ == after_output(old(self)@, chunk@),
            byte_len(final(self)@.output) <= final(self)@.byte_limit,
    {
        proof {
            use_type_invariant(&*self);
        }
        let mut output = String::new();
        std::mem::swap(&mut output, &mut self.output);
        output.append(chunk);
        let ghost whole = output@;
        if output.as_str().as_bytes().len() > self.byte_limit {
            truncate_to_byte_limit(&mut output, self.byte_limit);
            proof {
                law_truncation_keeps_the_longest_tail(whole, self.byte_limit as nat);
            }
            self.truncated = true;
        }
        self.output = output;
    }

    /// Takes in what became of reading the next line that the command printed,
    /// and says whether to read on.
    pub fn take_line(&mut self, read: LineRead) -> (read_on: bool)
        ensures
            match read {
                LineRead::Line(line) => read_on && final(self)@ == after_output(old(self)@, line@),
                _ => !read_on && final(self)@ == old(self)@,
            },
    {
        match read {
            LineRead::Line(line) => {
                self.push_output(line.as_str());
                true
            },
            LineRead::Closed => false,
            LineRead::Failed => false,
        }
    }

    /// Whether the process still has to be asked for its status.
    pub fn awaits_exit(&self) -> (waiting: bool)
        ensures
            waiting == (self@.exit_status is None),
    {
        self.exit_status.is_none()
    }

    /// Records the exit status if the process has ended and none is recorded yet.
    pub fn check_exit(&mut self, poll: ExitPoll)
        ensures
            final(self)@ == after_poll(old(self)@, poll),
    {
        proof {
            use_type_invariant(&*self);
        }
        if self.exit_status.is_some() {
            return;
        }
        match poll {
            ExitPoll::Exited { code, signal } => {
                let status = exit_status_to_acp(code, signal);
                self.exit_status = Some(status);
            },
            _ => {},
        }
    }

    /// The answer to a request for the output.
    pub fn terminal_output(&self) -> (answer: TerminalOutput)
        ensures
            answer.output@ == self@.output,
            answer.truncated == self@.truncated,
            match answer.exit_status {
                Some(status) => self@.exit_status == Some(status@),
                None => self@.exit_status is None,
            },
    {
        TerminalOutput {
            output: self.output.clone(),
            truncated: self.truncated,
            exit_status: match &self.exit_status {
                Some(status) => Some(status.copied()),
                None => None,
            },
        }
    }

    /// What a request that waits for the exit does next.
    pub fn wait_for_terminal_exit(&self) -> (step: WaitStep)
        ensures
            match step {
                WaitStep::Exited(status) => self@.exit_status == Some(status@),
                WaitStep::PollAgain { after_millis } => self@.exit_status is None && after_millis
                    == TERMINAL_EXIT_POLL_INTERVAL_MILLIS,
            },
    {
        match &self.exit_status {
            Some(status) => WaitStep::Exited(status.copied()),
            None => WaitStep::PollAgain { after_millis: TERMINAL_EXIT_POLL_INTERVAL_MILLIS },
        }
    }
}

/// What truncation keeps is a tail of the text, it fits the limit, and no tail
/// that fits is longer.
pub proof fn law_truncation_keeps_the_longest_tail(text: Seq<char>, limit: nat)
    ensures
        is_tail_of(longest_tail(text, limit), text),
        byte_len(longest_tail(text, limit)) <= limit,
        forall|tail: Seq<char>| #[trigger]
            is_tail_of(tail, text) && byte_len(tail) <= limit ==> tail.len() <= longest_tail(
                text,
                limit,
            ).len(),
    decreases text.len(),
{
    if text.len() == 0 || byte_len(text) <= limit {
        assert(text.skip(0) =~= text);
    } else {
        let rest = text.drop_first();
        law_truncation_keeps_the_longest_tail(rest, limit);
        let best = longest_tail(rest, limit);
        assert(text.skip(text.len() - best.len()) =~= rest.skip(rest.len() - best.len()));
        assert forall|tail: Seq<char>| #[trigger] is_tail_of(tail, text) && byte_len(tail)
            <= limit implies tail.len() <= best.len() by {
            if tail.len() == text.len() {
                assert(text.skip(0) =~= text);
            } else {
                assert(text.skip(text.len() - tail.len()) =~= rest.skip(rest.len() - tail.len()));
                assert(is_tail_of(tail, rest));
            }
        }
    }
}

/// Something that happens to a terminal.
pub enum TerminalEvent {
    /// Its command printed something.
    Printed(Seq<char>),
    /// Its process was asked for its status.
    Polled(ExitPoll),
}

/// All that a command printed.
pub open spec fn printed(events: Seq<TerminalEvent>) -> Seq<char>
    decreases events.len(),
{
    if events.len() == 0 {
        seq![]
    } else {
        match events.last() {
            TerminalEvent::Printed(chunk) => printed(events.drop_last()) + chunk,
            TerminalEvent::Polled(_) => printed(events.drop_last()),
        }
    }
}

/// The status that a process first reported.
pub open spec fn first_exit(events: Seq<TerminalEvent>) -> Option<ExitStatusView>
    decreases events.len(),
{
    if events.len() == 0 {
        None
    } else {
        match first_exit(events.drop_last()) {
            Some(status) => Some(status),
            None => match events.last() {
                TerminalEvent::Polled(ExitPoll::Exited { code, signal }) => Some(
                    exit_status_of(code, signal),
                ),
                _ => None,
            },
        }
    }
}

/// A terminal with the given limit after events.
pub open spec fn terminal_after(byte_limit: usize, events: Seq<TerminalEvent>) -> TerminalView
    decreases events.len(),
{
    if events.len() == 0 {
        fresh_terminal(byte_limit)
    } else {
        let before = terminal_after(byte_limit, events.drop_last());
        match events.last() {
            TerminalEvent::Printed(chunk) => after_output(before, chunk),
            TerminalEvent::Polled(poll) => after_poll(before, poll),
        }
    }
}

/// Cutting before appending loses nothing that cutting after it would keep.
proof fn lemma_cut_then_append(text: Seq<char>, chunk: Seq<char>, limit: nat)
    ensures
        longest_tail(longest_tail(text, limit) + chunk, limit) == longest_tail(text + chunk, limit),
    decreases text.len(),
{
    if text.len() > 0 && byte_len(text) > limit {
        lemma_cut_then_append(text.drop_first(), chunk, limit);
        lemma_encode_concat(text, chunk);
        assert((text + chunk).drop_first() =~= text.drop_first() + chunk);
    }
}

/// However a command's output is split into chunks, and whenever its process is
/// asked for its status in between, a terminal retains the longest tail of all of
/// the output that fits the limit, reports truncation exactly when all of it does
/// not fit, and holds the status that the process first reported.
pub proof fn law_retained_output(byte_limit: usize, events: Seq<TerminalEvent>)
    ensures
        terminal_after(byte_limit, events) == (TerminalView {
            output: longest_tail(printed(events), byte_limit as nat),
            truncated: byte_len(printed(events)) > byte_limit,
            byte_limit,
            exit_status: first_exit(events),
        }),
    decreases events.len(),
{
    if events.len() > 0 {
        let before = events.drop_last();
        law_retained_output(byte_limit, before);
        if let TerminalEvent::Printed(chunk) = events.last() {
            lemma_cut_then_append(printed(before), chunk, byte_limit as nat);
            lemma_encode_concat(printed(before), chunk);
        }
    } else {
        assert(encode_utf8(Seq::<char>::empty()).len() == 0);
    }
}

/// Once recorded, an exit status stays as it is, whatever the process reports later.
pub proof fn law_exit_status_is_recorded_once(state: TerminalView, poll: ExitPoll)
    requires
        state.exit_status is Some,
    ensures
        after_poll(state, poll) == state,
{
}

/// A process that exited reports its code unless that is negative, and one that a
/// signal ended reports the number of the signal, in decimal.
pub proof fn law_exit_statuses_report_code_and_signal(
    code: i32,
    any_code: Option<i32>,
    signal: i32,
    any_signal: Option<i32>,
)
    ensures
        code >= 0 ==> exit_status_of(Some(code), any_signal).exit_code == Some(code as u32),
        code < 0 ==> exit_status_of(Some(code), any_signal).exit_code is None,
        exit_status_of(None, any_signal).exit_code is None,
        exit_status_of(any_code, None).signal is None,
        exit_status_of(any_code, Some(signal)).signal is Some,
        signal >= 0 ==> spelled_number(exit_status_of(any_code, Some(signal)).signal->0) == signal,
        exit_status_of(any_code, Some(signal)).signal == Some(decimal(signal as int)),
{
    law_decimals_spell_their_number(signal as int);
}

/// The limit that an agent asks for is kept, as far as a size can be that large;
/// without one it is a mebibyte.
pub proof fn law_limits_are_kept(limit: u64)
    ensures
        limit <= usize::MAX ==> byte_limit_for(Some(limit)) == limit,
        limit > usize::MAX ==> byte_limit_for(Some(limit)) == usize::MAX,
        byte_limit_for(None) == 1024 * 1024,
{
}

/// Nothing is lost before the limit is reached: as long as all output fits, a
/// terminal retains exactly what was printed, and is not truncated.
pub proof fn law_small_output_is_retained_whole(state: TerminalView, chunk: Seq<char>)
    requires
        encode_utf8(state.output + chunk).len() <= state.byte_limit,
    ensures
        after_output(state, chunk).output == state.output + chunk,
        after_output(state, chunk).truncated == state.truncated,
        after_output(state, chunk).exit_status == state.exit_status,
        after_output(state, chunk).byte_limit == state.byte_limit,
{
}

/// Printing more keeps a tail of the old output followed by the new, that fits
/// the limit and could not be longer, and truncation is reported from then on.
pub proof fn law_long_output_keeps_its_tail(state: TerminalView, chunk: Seq<char>)
    requires
        encode_utf8(state.output + chunk).len() > state.byte_limit,
    ensures
        ({
            let whole = state.output + chunk;
            let kept = after_output(state, chunk).output;
            &&& kept.len() < whole.len()
            &&& kept == whole.skip(whole.len() - kept.len())
            &&& encode_utf8(kept).len() <= state.byte_limit
            &&& encode_utf8(whole.skip(whole.len() - kept.len() - 1)).len() > state.byte_limit
        }),
        after_output(state, chunk).truncated,
        after_output(state, chunk).exit_status == state.exit_status,
{
    let whole = state.output + chunk;
    law_truncation_keeps_the_longest_tail(whole, state.byte_limit as nat);
    let kept = after_output(state, chunk).output;
    if kept.len() == whole.len() {
        assert(whole.skip(0) =~= whole);
    }
    let longer = whole.skip(whole.len() - kept.len() - 1);
    assert(is_tail_of(longer, whole));
}

/// A terminal without a recorded status takes the one that its process reports
/// on exit, and any other report leaves it as it is; the output is never touched.
pub proof fn law_polls_record_the_exit(
    state: TerminalView,
    code: Option<i32>,
    signal: Option<i32>,
    poll: ExitPoll,
)
    ensures
        state.exit_status is None ==> after_poll(state, ExitPoll::Exited { code, signal }).exit_status
            == Some(exit_status_of(code, signal)),
        !(poll is Exited) ==> after_poll(state, poll) == state,
        after_poll(state, poll).output == state.output,
        after_poll(state, poll).truncated == state.truncated,
        after_poll(state, poll).byte_limit == state.byte_limit,
{
}

/// A new terminal has printed nothing, is not truncated and has not exited.
pub proof fn law_new_terminals_are_empty(byte_limit: usize)
    ensures
        fresh_terminal(byte_limit).output.len() == 0,
        !fresh_terminal(byte_limit).truncated,
        fresh_terminal(byte_limit).exit_status is None,
        fresh_terminal(byte_limit).byte_limit == byte_limit,
{
}

/// The view of an exit status holds its code and its signal.
pub proof fn law_exit_status_views_are_faithful(status: TerminalExitStatus)
    ensures
        status@.exit_code == status.exit_code,
        status@.signal is Some <==> status.signal is Some,
        status.signal is Some ==> status@.signal->0 == (status.signal->0)@,
{
}

/// A process is asked again after 50 milliseconds.
pub proof fn law_exits_are_polled_often()
    ensures
        TERMINAL_EXIT_POLL_INTERVAL_MILLIS == 50,
{
}

/// Truncation drops characters from the front alone, none where all fits, and no
/// more than it must.
pub proof fn law_truncation_drops_only_what_it_must(text: Seq<char>, limit: nat)
    ensures
        encode_utf8(text).len() <= limit ==> longest_tail(text, limit) == text,
        encode_utf8(text).len() > limit ==> {
            let kept = longest_tail(text, limit);
            &&& kept.len() < text.len()
            &&& kept == text.skip(text.len() - kept.len())
            &&& encode_utf8(kept).len() <= limit
            &&& encode_utf8(text.skip(text.len() - kept.len() - 1)).len() > limit
        },
{
    if encode_utf8(text).len() > limit {
        law_truncation_keeps_the_longest_tail(text, limit);
        let kept = longest_tail(text, limit);
        if kept.len() == text.len() {
            assert(text.skip(0) =~= text);
        }
        assert(is_tail_of(text.skip(text.len() - kept.len() - 1), text));
    }
}

} // verus!
