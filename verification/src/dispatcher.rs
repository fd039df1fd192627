//! The decisions of a run, apart from its input and output.
//!
//! A run is driven from outside: the driver reads the input, loads and
//! classifies images, and writes. After each of these it reports an event to
//! the dispatcher, which answers with the next thing to do. A failure on one
//! item never ends a stream.

use crate::cli::{Cli, Mode, OutputStyle};
use crate::output_helpers::{print_metric_records, print_results};
use crate::stream::{record_path, NUL};
use crate::Classification;
use vstd::prelude::*;

verus! {

/// What a run does with its input.
#[derive(Clone, Copy, Debug, PartialEq, Eq, Structural)]
pub enum RunKind {
    /// Nothing: no file was named and the input is a terminal.
    Help,
    /// Classifies one image and reports on it.
    SingleImage,
    /// Copies the records of the input to the output unchanged.
    Passthrough,
    /// Classifies the image at each path of the input and passes on the
    /// paths that the filter mode keeps.
    StreamOfPaths,
}

/// Where a run stands.
#[derive(Clone, Copy, Debug, PartialEq, Eq, Structural)]
pub enum State {
    Idle,
    SingleImage,
    StreamOfPaths,
    Passthrough,
}

/// What the driver reports.
#[derive(Debug)]
pub enum Event {
    /// A run of this kind begins.
    Begin(RunKind),
    /// A chunk was read from the input: the bytes up to and with the next
    /// NUL, or up to the end of the input.
    Chunk(Vec<u8>),
    /// The image at `path` was classified.
    Classified { path: String, outcome: Classification },
    /// The image at `path` could not be loaded or classified.
    Failed { path: String, reason: String },
    /// The input has ended.
    End,
}

/// What the driver is to do next.
#[derive(Debug, PartialEq, Eq)]
pub enum Action {
    /// Nothing; report the next event.
    Nothing,
    /// Show how the program is used.
    ShowHelp,
    /// Load and classify the image at this path, then report the outcome.
    Load(String),
    /// Write these bytes to the output.
    Write(Vec<u8>),
    /// Write this line to the diagnostic channel.
    Diagnose(String),
}

/// The mathematical model of an `Action`.
pub enum ActionModel {
    Nothing,
    ShowHelp,
    Load(Seq<char>),
    Write(Seq<u8>),
    Diagnose(Seq<char>),
}

impl View for Action {
    type V = ActionModel;

    open spec fn view(&self) -> ActionModel {
        match self {
            Action::Nothing => ActionModel::Nothing,
            Action::ShowHelp => ActionModel::ShowHelp,
            Action::Load(path) => ActionModel::Load(path@),
            Action::Write(bytes) => ActionModel::Write(bytes@),
            Action::Diagnose(text) => ActionModel::Diagnose(text@),
        }
    }
}

/// The kind of run that the options select. A single image is analyzed
/// where the options name one; else, with a terminal for input, there is
/// nothing to do; else the input is passed through or filtered.
pub open spec fn selected_run(cli: Cli, stdin_is_terminal: bool) -> RunKind {
    if cli.synthetic_checkerboard || cli.synthetic_white || cli.std_in_bytes || cli.file is Some {
        RunKind::SingleImage
    } else if stdin_is_terminal {
        RunKind::Help
    } else if cli.passthrough {
        RunKind::Passthrough
    } else {
        RunKind::StreamOfPaths
    }
}

/// The kind of run that the options select.
pub fn run_kind(cli: &Cli, stdin_is_terminal: bool) -> (kind: RunKind)
    ensures
        kind == selected_run(*cli, stdin_is_terminal),
{
    if cli.synthetic_checkerboard || cli.synthetic_white || cli.std_in_bytes || cli.file.is_some() {
        RunKind::SingleImage
    } else if stdin_is_terminal {
        RunKind::Help
    } else if cli.passthrough {
        RunKind::Passthrough
    } else {
        RunKind::StreamOfPaths
    }
}

/// The path that a chunk asks to classify: its record where that is not
/// empty and is valid UTF-8.
pub open spec fn requested_path(chunk: Seq<u8>) -> Option<Seq<char>> {
    if crate::stream::without_terminator(chunk).len() == 0 {
        None
    } else {
        crate::stream::path_of(crate::stream::without_terminator(chunk))
    }
}

/// The line that reports a failure on one item.
pub open spec fn failure_line(path: Seq<char>, reason: Seq<char>) -> Seq<char> {
    "Error processing "@ + path + ": "@ + reason
}

/// What a filter run writes for an item that it keeps: one record per
/// reading in the tabular style, else the path and a NUL, ready for the next
/// filter.
pub open spec fn stream_emission(style: OutputStyle, path: Seq<char>, c: Classification) -> Seq<
    u8,
> {
    if style == OutputStyle::Ascii {
        vstd::utf8::encode_utf8(
            crate::output_helpers::metric_records(
                crate::blur_result::readings_of(c.1@),
                c.2,
                c.3,
                c.4,
                path,
            ),
        )
    } else {
        vstd::utf8::encode_utf8(path).push(NUL)
    }
}

/// What a single-image run writes: the classification in the selected
/// style.
pub open spec fn single_report(style: OutputStyle, path: Seq<char>, c: Classification) -> Seq<
    u8,
> {
    vstd::utf8::encode_utf8(
        crate::output_helpers::rendered(
            c.0,
            crate::blur_result::readings_of(c.1@),
            c.2,
            c.3,
            c.4,
            crate::text::optional(c.5),
            path,
            style == OutputStyle::Verbose,
            style == OutputStyle::Ascii,
        ),
    )
}

/// The state after an event, and what the driver is to do. An event that
/// the state does not expect changes nothing.
pub open spec fn next(state: State, mode: Mode, style: OutputStyle, event: Event) -> (
    State,
    ActionModel,
) {
    match (state, event) {
        (State::Idle, Event::Begin(RunKind::Help)) => (State::Idle, ActionModel::ShowHelp),
        (State::Idle, Event::Begin(RunKind::SingleImage)) => (
            State::SingleImage,
            ActionModel::Nothing,
        ),
        (State::Idle, Event::Begin(RunKind::StreamOfPaths)) => (
            State::StreamOfPaths,
            ActionModel::Nothing,
        ),
        (State::Idle, Event::Begin(RunKind::Passthrough)) => (
            State::Passthrough,
            ActionModel::Nothing,
        ),
        (State::SingleImage, Event::Classified { path, outcome }) => (
            State::Idle,
            ActionModel::Write(single_report(style, path@, outcome)),
        ),
        (State::SingleImage, Event::Failed { path, reason }) => (
            State::Idle,
            ActionModel::Diagnose(failure_line(path@, reason@)),
        ),
        (State::StreamOfPaths, Event::Chunk(chunk)) => (
            State::StreamOfPaths,
            match requested_path(chunk@) {
                Some(path) => ActionModel::Load(path),
                None => ActionModel::Nothing,
            },
        ),
        (State::StreamOfPaths, Event::Classified { path, outcome }) => (
            State::StreamOfPaths,
            if mode.keeps(outcome.0) {
                ActionModel::Write(stream_emission(style, path@, outcome))
            } else {
                ActionModel::Nothing
            },
        ),
        (State::StreamOfPaths, Event::Failed { path, reason }) => (
            State::StreamOfPaths,
            ActionModel::Diagnose(failure_line(path@, reason@)),
        ),
        (State::StreamOfPaths, Event::End) => (State::Idle, ActionModel::Nothing),
        (State::Passthrough, Event::Chunk(chunk)) => (
            State::Passthrough,
            if chunk@.len() > 0 {
                ActionModel::Write(chunk@)
            } else {
                ActionModel::Nothing
            },
        ),
        (State::Passthrough, Event::End) => (State::Idle, ActionModel::Nothing),
        (_, _) => (state, ActionModel::Nothing),
    }
}

/// While a stream is filtered, nothing but the end of the input ends it:
/// whatever is reported of an item, a bad record, a failure or a
/// classification, the run goes on with the next item.
pub proof fn lemma_stream_outlives_items(mode: Mode, style: OutputStyle, event: Event)
    requires
        !(event is End),
    ensures
        next(State::StreamOfPaths, mode, style, event).0 == State::StreamOfPaths,
        event is Failed ==> next(State::StreamOfPaths, mode, style, event).1 is Diagnose,
{
}

/// A record that is empty or not valid UTF-8 is passed over in silence.
pub proof fn lemma_bad_record_is_skipped(mode: Mode, style: OutputStyle, chunk: Vec<u8>)
    requires
        ({
            let record = crate::stream::without_terminator(chunk@);
            record.len() == 0 || !vstd::utf8::valid_utf8(record)
        }),
    ensures
        next(State::StreamOfPaths, mode, style, Event::Chunk(chunk)) == (
            State::StreamOfPaths,
            ActionModel::Nothing,
        ),
{
}

/// In a passthrough run every chunk is written as it was read, whatever
/// bytes it holds. The chunks of a stream are never empty and put together
/// they are the stream, so the output is the input byte for byte.
pub proof fn lemma_passthrough_writes_chunks(mode: Mode, style: OutputStyle, chunk: Vec<u8>)
    requires
        chunk@.len() > 0,
    ensures
        next(State::Passthrough, mode, style, Event::Chunk(chunk)) == (
            State::Passthrough,
            ActionModel::Write(chunk@),
        ),
{
}

/// In a terse filter run, a kept item is passed on as the bytes of its
/// record followed by a NUL.
pub proof fn lemma_kept_record_is_reemitted(record: Seq<u8>, c: Classification)
    requires
        vstd::utf8::valid_utf8(record),
    ensures
        stream_emission(OutputStyle::Terse, vstd::utf8::decode_utf8(record), c) == record.push(
            NUL,
        ),
{
    vstd::utf8::decode_utf8_encode_utf8(record);
}

/// The decisions of one run.
#[derive(Debug)]
pub struct Dispatcher {
    state: State,
    mode: Mode,
    style: OutputStyle,
}

impl Dispatcher {
    /// Where the run stands.
    pub closed spec fn state(&self) -> State {
        self.state
    }

    /// The filter mode of the run.
    pub closed spec fn mode(&self) -> Mode {
        self.mode
    }

    /// The output style of the run.
    pub closed spec fn style(&self) -> OutputStyle {
        self.style
    }

    /// A dispatcher for the options of a run, idle.
    pub fn new(cli: &Cli) -> (d: Dispatcher)
        ensures
            d.state() == State::Idle,
            d.mode() == cli.selected_mode(),
            d.style() == cli.selected_style(),
    {
        Dispatcher { state: State::Idle, mode: cli.mode(), style: cli.style() }
    }

    /// Where the run stands.
    pub fn current(&self) -> (s: State)
        ensures
            s == self.state(),
    {
        self.state
    }

    /// Takes an event and says what to do next.
    pub fn step(&mut self, event: Event) -> (action: Action)
        ensures
            (final(self).state(), action@) == next(
                old(self).state(),
                old(self).mode(),
                old(self).style(),
                event,
            ),
            final(self).mode() == old(self).mode(),
            final(self).style() == old(self).style(),
    {
        match self.state {
            State::Idle => match event {
                Event::Begin(RunKind::Help) => Action::ShowHelp,
                Event::Begin(RunKind::SingleImage) => {
                    self.state = State::SingleImage;
                    Action::Nothing
                },
                Event::Begin(RunKind::StreamOfPaths) => {
                    self.state = State::StreamOfPaths;
                    Action::Nothing
                },
                Event::Begin(RunKind::Passthrough) => {
                    self.state = State::Passthrough;
                    Action::Nothing
                },
                _ => Action::Nothing,
            },
            State::SingleImage => match event {
                Event::Classified { path, outcome } => {
                    self.state = State::Idle;
                    let text = print_results(
                        outcome.0,
                        &outcome.1,
                        outcome.2,
                        outcome.3,
                        outcome.4,
                        &outcome.5,
                        path.as_str(),
                        self.style == OutputStyle::Verbose,
                        self.style == OutputStyle::Ascii,
                    );
                    Action::Write(text.as_str().as_bytes_vec())
                },
                Event::Failed { path, reason } => {
                    self.state = State::Idle;
                    Action::Diagnose(failure_text(path.as_str(), reason.as_str()))
                },
                _ => Action::Nothing,
            },
            State::StreamOfPaths => match event {
                Event::Chunk(chunk) => {
                    let mut record = chunk;
                    let length = record.len();
                    if length > 0 && record[length - 1] == NUL {
                        record.pop();
                        assert(record@ =~= crate::stream::without_terminator(chunk@));
                    }
                    if record.len() == 0 {
                        Action::Nothing
                    } else {
                        match record_path(record) {
                            Some(path) => Action::Load(path),
                            None => Action::Nothing,
                        }
                    }
                },
                Event::Classified { path, outcome } => {
                    if self.mode.passes(outcome.0) {
                        if self.style == OutputStyle::Ascii {
                            let text = print_metric_records(
                                &outcome.1,
                                outcome.2,
                                outcome.3,
                                outcome.4,
                                path.as_str(),
                            );
                            Action::Write(text.as_str().as_bytes_vec())
                        } else {
                            let mut bytes = path.as_str().as_bytes_vec();
                            bytes.push(NUL);
                            Action::Write(bytes)
                        }
                    } else {
                        Action::Nothing
                    }
                },
                Event::Failed { path, reason } => Action::Diagnose(
                    failure_text(path.as_str(), reason.as_str()),
                ),
                Event::End => {
                    self.state = State::Idle;
                    Action::Nothing
                },
                _ => Action::Nothing,
            },
            State::Passthrough => match event {
                Event::Chunk(chunk) => {
                    if chunk.len() > 0 {
                        Action::Write(chunk)
                    } else {
                        Action::Nothing
                    }
                },
                Event::End => {
                    self.state = State::Idle;
                    Action::Nothing
                },
                _ => Action::Nothing,
            },
        }
    }
}

/// The line that reports a failure on one item.
pub fn failure_text(path: &str, reason: &str) -> (line: String)
    ensures
        line@ == failure_line(path@, reason@),
{
    let mut line = "Error processing ".to_owned();
    line.append(path);
    line.append(": ");
    line.append(reason);
    line
}

} // verus!
