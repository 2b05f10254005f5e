//! The pipeline executor, as a state machine.
//!
//! The machine spawns nothing and opens nothing itself. Each step takes what
//! came of the last action and answers with the next action: run a builtin,
//! spawn a program with its input wired to a source, read or write a file,
//! collect the output of the process that runs, print, or report. Its driver
//! performs the action and comes back with the outcome.
//!
//! The stages are started from left to right, each external one reading
//! what the one before it writes. A builtin in a chain of several stages
//! breaks the chain: it runs on its own, a diagnostic says so, and the stage
//! behind it starts from a fresh pipe. A spawn that fails ends the run; what
//! was started before is left alone. The redirection of the last stage is
//! that of the whole line: an input file feeds the first stage, an output
//! file takes what the last process wrote.

use vstd::prelude::*;
use vstd::utf8::{decode_utf8, valid_utf8};
use crate::logic::{
    accumulate_commands_and_arguments, children_of, pipeline_of, plan_spec, CommandData, Stage,
};
use crate::parser::{
    forest, lemma_view_children, parse_input, parse_spec, ParseError, ParseNode, RedirectionOp,
    Tree,
};
use crate::token::{split_input, split_spec};
use crate::registry::{resolve_spec, Builtin, Registry, Resolution, Resolved, Tables};
use crate::text::{join2, join3};

verus! {

/// Where a spawned process reads from.
#[derive(Clone, Copy, Debug, PartialEq, Eq, Structural)]
pub enum InputSource {
    /// The shell's own standard input.
    Inherited,
    /// A new pipe, whose writing end the driver holds.
    FreshPipe,
    /// What the process started before it writes.
    PreviousOutput,
}

/// What the driver is asked to do next. The standard output of every
/// spawned process is a pipe.
#[derive(Debug, PartialEq)]
pub enum Action {
    /// Run a builtin in process. The process that runs, if one does, is let
    /// go of.
    RunBuiltin { builtin: Builtin, arguments: Vec<String> },
    /// Start a program. It becomes the process that runs.
    Spawn { program: String, arguments: Vec<String>, stdin: InputSource },
    /// Read a file whole.
    ReadFile { path: String },
    /// Write `text` to the input of the process that runs, then close that
    /// input.
    FeedInput { text: String },
    /// Wait for the process that runs and take what it wrote.
    Collect,
    /// Write `text` to a file, created if need be: from its start, dropping
    /// what it held, if `truncate`, else at its end.
    WriteFile { path: String, text: String, truncate: bool },
    /// Print `text` to the console.
    Print { text: String },
    /// Print a diagnostic.
    Report { message: String },
    /// Nothing is left to do.
    Finished,
}

/// The mathematical value of an [`Action`].
pub enum Step {
    RunBuiltin { builtin: Builtin, arguments: Seq<Seq<char>> },
    Spawn { program: Seq<char>, arguments: Seq<Seq<char>>, stdin: InputSource },
    ReadFile { path: Seq<char> },
    FeedInput { text: Seq<char> },
    Collect,
    WriteFile { path: Seq<char>, text: Seq<char>, truncate: bool },
    Print { text: Seq<char> },
    Report { message: Seq<char> },
    Finished,
}

impl View for Action {
    type V = Step;

    open spec fn view(&self) -> Step {
        match self {
            Action::RunBuiltin { builtin, arguments } => Step::RunBuiltin {
                builtin: *builtin,
                arguments: arguments.deep_view(),
            },
            Action::Spawn { program, arguments, stdin } => Step::Spawn {
                program: program@,
                arguments: arguments.deep_view(),
                stdin: *stdin,
            },
            Action::ReadFile { path } => Step::ReadFile { path: path@ },
            Action::FeedInput { text } => Step::FeedInput { text: text@ },
            Action::Collect => Step::Collect,
            Action::WriteFile { path, text, truncate } => Step::WriteFile {
                path: path@,
                text: text@,
                truncate: *truncate,
            },
            Action::Print { text } => Step::Print { text: text@ },
            Action::Report { message } => Step::Report { message: message@ },
            Action::Finished => Step::Finished,
        }
    }
}

/// What came of the last action.
#[derive(Debug, PartialEq)]
pub enum Event {
    /// No action was asked for yet.
    Start,
    /// The action was carried out.
    Done,
    /// The action failed, for the reason given.
    Failed { reason: String },
    /// The file was read: here is what it holds.
    Content { text: String },
    /// The process ended: here is what it wrote.
    Output { bytes: Vec<u8> },
}

/// The mathematical value of an [`Event`].
pub enum Signal {
    Start,
    Done,
    Failed { reason: Seq<char> },
    Content { text: Seq<char> },
    Output { bytes: Seq<u8> },
}

impl View for Event {
    type V = Signal;

    open spec fn view(&self) -> Signal {
        match self {
            Event::Start => Signal::Start,
            Event::Done => Signal::Done,
            Event::Failed { reason } => Signal::Failed { reason: reason@ },
            Event::Content { text } => Signal::Content { text: text@ },
            Event::Output { bytes } => Signal::Output { bytes: bytes@ },
        }
    }
}

/// Which action the machine waits on.
#[derive(Clone, Copy, Debug, PartialEq, Eq, Structural)]
pub enum Phase {
    /// None yet.
    Ready,
    /// The reading of the input file.
    ReadingInput,
    /// The builtin of the current stage.
    RunningBuiltin,
    /// The diagnostic on a builtin amid a chain.
    Diagnosing,
    /// The spawn of the current stage.
    Spawning,
    /// The feeding of the input file to the first stage.
    Feeding,
    /// The report of a feeding that failed.
    ReportingFeed,
    /// The collecting of the last process's output.
    Collecting,
    /// The writing of the current target.
    Writing,
    /// The report of a writing that failed.
    ReportingWrite,
    /// A last print or report.
    Closing,
    /// Nothing: the run is over.
    Finished,
}

/// Where a run stands.
#[derive(Debug, PartialEq)]
pub struct ExecutionState {
    pub phase: Phase,
    /// The stage that was started last.
    pub stage: usize,
    /// The redirection target that was written last.
    pub target: usize,
    /// Whether a process runs whose output nobody took yet.
    pub live: bool,
    /// What the input file holds, until the first stage was fed it.
    pub input: Option<String>,
    /// What the last process wrote, for the output files.
    pub output: String,
}

/// The mathematical value of an [`ExecutionState`].
pub struct Progress {
    pub phase: Phase,
    pub stage: int,
    pub target: int,
    pub live: bool,
    pub input: Option<Seq<char>>,
    pub output: Seq<char>,
}

impl View for ExecutionState {
    type V = Progress;

    open spec fn view(&self) -> Progress {
        Progress {
            phase: self.phase,
            stage: self.stage as int,
            target: self.target as int,
            live: self.live,
            input: match self.input {
                Some(text) => Some(text@),
                None => None,
            },
            output: self.output@,
        }
    }
}

/// The state before the first step.
pub open spec fn initial_progress() -> Progress {
    Progress {
        phase: Phase::Ready,
        stage: 0,
        target: 0,
        live: false,
        input: None,
        output: Seq::empty(),
    }
}

impl ExecutionState {
    /// The state before the first step.
    pub fn new() -> (res: ExecutionState)
        ensures
            res@ == initial_progress(),
    {
        ExecutionState {
            phase: Phase::Ready,
            stage: 0,
            target: 0,
            live: false,
            input: None,
            output: String::new(),
        }
    }
}

/// The redirection of the line: that of the last stage.
pub open spec fn trailing_op(pipeline: Seq<Stage>) -> Option<RedirectionOp> {
    if pipeline.len() == 0 {
        None
    } else {
        pipeline.last().redirection_op
    }
}

/// The files of the line's redirection.
pub open spec fn trailing_files(pipeline: Seq<Stage>) -> Seq<Seq<char>> {
    if pipeline.len() == 0 {
        Seq::empty()
    } else {
        pipeline.last().redirection_files
    }
}

/// Whether the line sends its output to files.
pub open spec fn writes_files(pipeline: Seq<Stage>) -> bool {
    trailing_op(pipeline) == Some(RedirectionOp::Output) || trailing_op(pipeline) == Some(
        RedirectionOp::Append,
    )
}

/// The run is over.
pub open spec fn finish_spec(progress: Progress) -> (Progress, Step) {
    (Progress { phase: Phase::Finished, ..progress }, Step::Finished)
}

/// One last action, then the run is over.
pub open spec fn close_with_spec(progress: Progress, step: Step) -> (Progress, Step) {
    (Progress { phase: Phase::Closing, ..progress }, step)
}

/// The writing of the output files from the target at `target` on: one file
/// after the other, each given all of the output.
pub open spec fn redirect_output_spec(pipeline: Seq<Stage>, progress: Progress, target: int) -> (
    Progress,
    Step,
) {
    if 0 <= target < trailing_files(pipeline).len() {
        (
            Progress { phase: Phase::Writing, target, ..progress },
            Step::WriteFile {
                path: trailing_files(pipeline)[target],
                text: progress.output,
                truncate: trailing_op(pipeline) == Some(RedirectionOp::Output),
            },
        )
    } else {
        finish_spec(progress)
    }
}

/// What is done once every stage was started. The output of the process
/// that runs is collected, to be written to the output files or printed.
/// Where none runs, the output files get the empty output; a builtin that
/// was the whole line, without a redirection, prints its empty output.
pub open spec fn execute_on_command_data_spec(pipeline: Seq<Stage>, progress: Progress) -> (
    Progress,
    Step,
) {
    if progress.live {
        (Progress { phase: Phase::Collecting, ..progress }, Step::Collect)
    } else if writes_files(pipeline) {
        redirect_output_spec(pipeline, Progress { output: Seq::empty(), ..progress }, 0)
    } else if pipeline.len() == 1 && trailing_op(pipeline) is None {
        close_with_spec(progress, Step::Print { text: Seq::empty() })
    } else {
        finish_spec(progress)
    }
}

/// Where the stage at `stage` reads from, if it is spawned now: the process
/// before it if one runs; else the shell's input if it is the whole line
/// and no file feeds it; else a fresh pipe.
pub open spec fn input_source(pipeline: Seq<Stage>, progress: Progress) -> InputSource {
    if progress.live {
        InputSource::PreviousOutput
    } else if pipeline.len() == 1 && progress.input is None {
        InputSource::Inherited
    } else {
        InputSource::FreshPipe
    }
}

/// The start of the stage at `stage`: a builtin is run, a program is
/// spawned under the name that its alias stands for. Behind the last stage
/// comes what ends the line.
pub open spec fn execute_command_spec(
    pipeline: Seq<Stage>,
    tables: Tables,
    progress: Progress,
    stage: int,
) -> (Progress, Step) {
    if 0 <= stage < pipeline.len() {
        match resolve_spec(tables, pipeline[stage].command) {
            Resolved::Builtin(builtin) => (
                Progress { phase: Phase::RunningBuiltin, stage, ..progress },
                Step::RunBuiltin { builtin, arguments: pipeline[stage].arguments },
            ),
            Resolved::External { program, leading } => (
                Progress { phase: Phase::Spawning, stage, ..progress },
                Step::Spawn {
                    program,
                    arguments: leading + pipeline[stage].arguments,
                    stdin: input_source(pipeline, progress),
                },
            ),
        }
    } else {
        execute_on_command_data_spec(pipeline, progress)
    }
}

/// The first step. A line whose input is redirected, and whose first stage
/// is a program, has its input file read before anything is started.
pub open spec fn redirect_input_spec(pipeline: Seq<Stage>, tables: Tables, progress: Progress) -> (
    Progress,
    Step,
) {
    if pipeline.len() > 0 && trailing_op(pipeline) == Some(RedirectionOp::Input) && resolve_spec(
        tables,
        pipeline[0].command,
    ) is External {
        if trailing_files(pipeline).len() > 0 {
            (
                Progress { phase: Phase::ReadingInput, ..progress },
                Step::ReadFile { path: trailing_files(pipeline)[0] },
            )
        } else {
            close_with_spec(progress, Step::Report { message: "No input file given."@ })
        }
    } else {
        execute_command_spec(pipeline, tables, progress, 0)
    }
}

/// The reason that a failure gave; none for another event.
pub open spec fn reason_of(signal: Signal) -> Seq<char> {
    match signal {
        Signal::Failed { reason } => reason,
        _ => Seq::empty(),
    }
}

/// The name under which the stage at `stage` is spawned.
pub open spec fn program_of(pipeline: Seq<Stage>, tables: Tables, stage: int) -> Seq<char> {
    if 0 <= stage < pipeline.len() {
        match resolve_spec(tables, pipeline[stage].command) {
            Resolved::Builtin(_) => pipeline[stage].command,
            Resolved::External { program, .. } => program,
        }
    } else {
        Seq::empty()
    }
}

/// The command of the stage at `stage`.
pub open spec fn command_of(pipeline: Seq<Stage>, stage: int) -> Seq<char> {
    if 0 <= stage < pipeline.len() {
        pipeline[stage].command
    } else {
        Seq::empty()
    }
}

/// What follows a spawn. One that failed is reported and ends the run. Else
/// the process runs: the first stage is fed the input file where there is
/// one, and the next stage is started.
pub open spec fn redirect_input_process_spec(
    pipeline: Seq<Stage>,
    tables: Tables,
    progress: Progress,
    signal: Signal,
) -> (Progress, Step) {
    match signal {
        Signal::Failed { reason } => close_with_spec(
            progress,
            Step::Report {
                message: if pipeline.len() == 1 {
                    "Could not get output from command: "@ + program_of(
                        pipeline,
                        tables,
                        progress.stage,
                    )
                } else {
                    reason
                },
            },
        ),
        _ => match progress.input {
            Some(text) if progress.stage == 0 => (
                Progress { phase: Phase::Feeding, live: true, input: None, ..progress },
                Step::FeedInput { text },
            ),
            _ => execute_command_spec(
                pipeline,
                tables,
                Progress { live: true, ..progress },
                progress.stage + 1,
            ),
        },
    }
}

/// What follows the collecting of the last process's output. Output that
/// is text goes to the output files, or else to the console; output that is
/// no text, like a process that could not be waited for, is reported.
pub open spec fn redirect_output_process_spec(
    pipeline: Seq<Stage>,
    progress: Progress,
    signal: Signal,
) -> (Progress, Step) {
    let taken = Progress { live: false, ..progress };
    match signal {
        Signal::Output { bytes } => if valid_utf8(bytes) {
            if writes_files(pipeline) {
                redirect_output_spec(pipeline, Progress { output: decode_utf8(bytes), ..taken }, 0)
            } else {
                close_with_spec(taken, Step::Print { text: decode_utf8(bytes) })
            }
        } else {
            close_with_spec(
                taken,
                Step::Report { message: "Could not read data from process into string!"@ },
            )
        },
        _ => close_with_spec(
            taken,
            Step::Report {
                message: if writes_files(pipeline) {
                    "Could not get output from process during output redirection"@
                } else {
                    "Could not get output from final command!"@
                },
            },
        ),
    }
}

/// One step of the run of `pipeline`: from where the run stands and what
/// came of the last action, to where it stands then and the next action.
pub open spec fn step_spec(
    pipeline: Seq<Stage>,
    tables: Tables,
    progress: Progress,
    signal: Signal,
) -> (Progress, Step) {
    match progress.phase {
        Phase::Ready => redirect_input_spec(pipeline, tables, progress),
        Phase::ReadingInput => match signal {
            Signal::Content { text } => execute_command_spec(
                pipeline,
                tables,
                Progress { input: Some(text), ..progress },
                0,
            ),
            _ => close_with_spec(
                progress,
                Step::Report { message: "Could not read input file: "@ + reason_of(signal) },
            ),
        },
        Phase::RunningBuiltin => if pipeline.len() == 1 {
            execute_on_command_data_spec(pipeline, Progress { live: false, ..progress })
        } else {
            (
                Progress { phase: Phase::Diagnosing, live: false, ..progress },
                Step::Report {
                    message: "Builtin command: "@ + command_of(pipeline, progress.stage)
                        + " encountered during piping, consider removing"@,
                },
            )
        },
        Phase::Diagnosing => execute_command_spec(pipeline, tables, progress, progress.stage + 1),
        Phase::Spawning => redirect_input_process_spec(pipeline, tables, progress, signal),
        Phase::Feeding => match signal {
            Signal::Failed { reason } => (
                Progress { phase: Phase::ReportingFeed, ..progress },
                Step::Report { message: reason },
            ),
            _ => execute_command_spec(pipeline, tables, progress, progress.stage + 1),
        },
        Phase::ReportingFeed => execute_command_spec(
            pipeline,
            tables,
            progress,
            progress.stage + 1,
        ),
        Phase::Collecting => redirect_output_process_spec(pipeline, progress, signal),
        Phase::Writing => match signal {
            Signal::Failed { reason } => (
                Progress { phase: Phase::ReportingWrite, ..progress },
                Step::Report { message: reason },
            ),
            _ => redirect_output_spec(pipeline, progress, progress.target + 1),
        },
        Phase::ReportingWrite => redirect_output_spec(pipeline, progress, progress.target + 1),
        Phase::Closing => finish_spec(progress),
        Phase::Finished => finish_spec(progress),
    }
}

/// `String::from_utf8` of std: the text that `bytes` encode in UTF-8, and
/// none where they encode no text.
#[verifier::external_body]
fn decode_text(bytes: Vec<u8>) -> (res: Option<String>)
    ensures
        res is Some <==> valid_utf8(bytes@),
        res matches Some(text) ==> text@ == decode_utf8(bytes@),
{
    String::from_utf8(bytes).ok()
}

/// A copy of `first`, then a copy of `second`.
fn chain(first: &Vec<String>, second: &Vec<String>) -> (res: Vec<String>)
    ensures
        res.deep_view() == first.deep_view() + second.deep_view(),
{
    let mut res: Vec<String> = Vec::new();
    let mut i: usize = 0;
    while i < first.len()
        invariant
            i <= first.len(),
            res.deep_view() == first.deep_view().take(i as int),
        decreases first.len() - i,
    {
        let ghost before = res.deep_view();
        res.push(first[i].clone());
        assert(res.deep_view() =~= before.push(first[i as int]@));
        i += 1;
        assert(res.deep_view() =~= first.deep_view().take(i as int));
    }
    assert(first.deep_view().take(first.len() as int) =~= first.deep_view());
    let mut j: usize = 0;
    while j < second.len()
        invariant
            j <= second.len(),
            res.deep_view() == first.deep_view() + second.deep_view().take(j as int),
        decreases second.len() - j,
    {
        let ghost before = res.deep_view();
        res.push(second[j].clone());
        assert(res.deep_view() =~= before.push(second[j as int]@));
        j += 1;
        assert(res.deep_view() =~= first.deep_view() + second.deep_view().take(j as int));
    }
    assert(second.deep_view().take(second.len() as int) =~= second.deep_view());
    res
}

/// The redirection of the line: that of the last stage.
pub fn trailing_redirection(pipeline: &Vec<CommandData>) -> (res: Option<RedirectionOp>)
    ensures
        res == trailing_op(pipeline_of(pipeline@)),
{
    if pipeline.len() == 0 {
        None
    } else {
        pipeline[pipeline.len() - 1].redirection_op
    }
}

/// Tells whether the line sends its output to files.
fn sends_output_to_files(pipeline: &Vec<CommandData>) -> (res: bool)
    ensures
        res == writes_files(pipeline_of(pipeline@)),
{
    match trailing_redirection(pipeline) {
        Some(RedirectionOp::Output) => true,
        Some(RedirectionOp::Append) => true,
        _ => false,
    }
}

/// Ends the run.
fn finish(state: ExecutionState) -> (res: (ExecutionState, Action))
    ensures
        (res.0@, res.1@) == finish_spec(state@),
{
    (ExecutionState { phase: Phase::Finished, ..state }, Action::Finished)
}

/// Asks for one last action.
fn close_with(state: ExecutionState, action: Action) -> (res: (ExecutionState, Action))
    ensures
        (res.0@, res.1@) == close_with_spec(state@, action@),
{
    (ExecutionState { phase: Phase::Closing, ..state }, action)
}

/// Asks for the writing of the output file at `target`, or ends the run
/// behind the last one.
pub fn redirect_output(pipeline: &Vec<CommandData>, state: ExecutionState, target: usize) -> (res:
    (ExecutionState, Action))
    ensures
        (res.0@, res.1@) == redirect_output_spec(pipeline_of(pipeline@), state@, target as int),
{
    if pipeline.len() > 0 && target < pipeline[pipeline.len() - 1].redirection_files.len() {
        let last = &pipeline[pipeline.len() - 1];
        let truncate = match last.redirection_op {
            Some(RedirectionOp::Output) => true,
            _ => false,
        };
        let action = Action::WriteFile {
            path: last.redirection_files[target].clone(),
            text: state.output.clone(),
            truncate,
        };
        (ExecutionState { phase: Phase::Writing, target, ..state }, action)
    } else {
        finish(state)
    }
}

/// Decides what ends the line once every stage was started.
pub fn execute_on_command_data(pipeline: &Vec<CommandData>, state: ExecutionState) -> (res: (
    ExecutionState,
    Action,
))
    ensures
        (res.0@, res.1@) == execute_on_command_data_spec(pipeline_of(pipeline@), state@),
{
    if state.live {
        (ExecutionState { phase: Phase::Collecting, ..state }, Action::Collect)
    } else if sends_output_to_files(pipeline) {
        redirect_output(pipeline, ExecutionState { output: String::new(), ..state }, 0)
    } else if pipeline.len() == 1 && trailing_redirection(pipeline).is_none() {
        close_with(state, Action::Print { text: String::new() })
    } else {
        finish(state)
    }
}

/// Starts the stage at `stage`, or ends the line behind the last one.
pub fn execute_command(
    pipeline: &Vec<CommandData>,
    registry: &Registry,
    state: ExecutionState,
    stage: usize,
) -> (res: (ExecutionState, Action))
    ensures
        (res.0@, res.1@) == execute_command_spec(
            pipeline_of(pipeline@),
            registry@,
            state@,
            stage as int,
        ),
{
    if stage < pipeline.len() {
        let command_data = &pipeline[stage];
        match registry.resolve(&command_data.command) {
            Resolution::Builtin(builtin) => {
                let empty: Vec<String> = Vec::new();
                assert(empty.deep_view() =~= Seq::<Seq<char>>::empty());
                let arguments = chain(&empty, &command_data.arguments);
                assert(arguments.deep_view() =~= command_data@.arguments);
                (
                    ExecutionState { phase: Phase::RunningBuiltin, stage, ..state },
                    Action::RunBuiltin { builtin, arguments },
                )
            },
            Resolution::External { program, leading } => {
                let stdin = if state.live {
                    InputSource::PreviousOutput
                } else if pipeline.len() == 1 && state.input.is_none() {
                    InputSource::Inherited
                } else {
                    InputSource::FreshPipe
                };
                let arguments = chain(&leading, &command_data.arguments);
                (
                    ExecutionState { phase: Phase::Spawning, stage, ..state },
                    Action::Spawn { program, arguments, stdin },
                )
            },
        }
    } else {
        execute_on_command_data(pipeline, state)
    }
}

/// Starts the stage behind the one that was started last.
fn execute_next_command(pipeline: &Vec<CommandData>, registry: &Registry, state: ExecutionState) -> (res:
    (ExecutionState, Action))
    ensures
        (res.0@, res.1@) == execute_command_spec(
            pipeline_of(pipeline@),
            registry@,
            state@,
            state@.stage + 1,
        ),
{
    if state.stage < pipeline.len() {
        let next: usize = state.stage + 1;
        execute_command(pipeline, registry, state, next)
    } else {
        execute_on_command_data(pipeline, state)
    }
}

/// Takes the first step: asks for the input file where the line needs it,
/// else starts the first stage.
pub fn redirect_input(pipeline: &Vec<CommandData>, registry: &Registry, state: ExecutionState) -> (res:
    (ExecutionState, Action))
    ensures
        (res.0@, res.1@) == redirect_input_spec(pipeline_of(pipeline@), registry@, state@),
{
    let feeds_program = match trailing_redirection(pipeline) {
        Some(RedirectionOp::Input) => match registry.resolve(&pipeline[0].command) {
            Resolution::External { .. } => true,
            Resolution::Builtin(_) => false,
        },
        _ => false,
    };
    if feeds_program {
        let files = &pipeline[pipeline.len() - 1].redirection_files;
        if files.len() > 0 {
            (
                ExecutionState { phase: Phase::ReadingInput, ..state },
                Action::ReadFile { path: files[0].clone() },
            )
        } else {
            close_with(state, Action::Report { message: "No input file given.".to_owned() })
        }
    } else {
        execute_command(pipeline, registry, state, 0)
    }
}

/// Takes the step behind a spawn: reports one that failed, else feeds the
/// first stage its input file or starts the next stage.
pub fn redirect_input_process(
    pipeline: &Vec<CommandData>,
    registry: &Registry,
    state: ExecutionState,
    event: Event,
) -> (res: (ExecutionState, Action))
    ensures
        (res.0@, res.1@) == redirect_input_process_spec(
            pipeline_of(pipeline@),
            registry@,
            state@,
            event@,
        ),
{
    match event {
        Event::Failed { reason } => {
            let message = if pipeline.len() == 1 {
                let program = if state.stage < pipeline.len() {
                    match registry.resolve(&pipeline[state.stage].command) {
                        Resolution::Builtin(_) => pipeline[state.stage].command.clone(),
                        Resolution::External { program, .. } => program,
                    }
                } else {
                    String::new()
                };
                join2("Could not get output from command: ", program.as_str())
            } else {
                reason
            };
            close_with(state, Action::Report { message })
        },
        _ => {
            let ExecutionState { phase, stage, target, live, input, output } = state;
            match input {
                Some(text) if stage == 0 => (
                    ExecutionState {
                        phase: Phase::Feeding,
                        stage,
                        target,
                        live: true,
                        input: None,
                        output,
                    },
                    Action::FeedInput { text },
                ),
                input => execute_next_command(
                    pipeline,
                    registry,
                    ExecutionState { phase, stage, target, live: true, input, output },
                ),
            }
        },
    }
}

/// Takes the step behind the collecting of the last process's output.
pub fn redirect_output_process(pipeline: &Vec<CommandData>, state: ExecutionState, event: Event) -> (res:
    (ExecutionState, Action))
    ensures
        (res.0@, res.1@) == redirect_output_process_spec(pipeline_of(pipeline@), state@, event@),
{
    let taken = ExecutionState { live: false, ..state };
    match event {
        Event::Output { bytes } => match decode_text(bytes) {
            Some(text) => {
                if sends_output_to_files(pipeline) {
                    redirect_output(pipeline, ExecutionState { output: text, ..taken }, 0)
                } else {
                    close_with(taken, Action::Print { text })
                }
            },
            None => close_with(
                taken,
                Action::Report {
                    message: "Could not read data from process into string!".to_owned(),
                },
            ),
        },
        _ => {
            let message = if sends_output_to_files(pipeline) {
                "Could not get output from process during output redirection".to_owned()
            } else {
                "Could not get output from final command!".to_owned()
            };
            close_with(taken, Action::Report { message })
        },
    }
}

/// Asks for the writing of the output file behind the one that was written
/// last.
fn redirect_next_output(pipeline: &Vec<CommandData>, state: ExecutionState) -> (res: (
    ExecutionState,
    Action,
))
    ensures
        (res.0@, res.1@) == redirect_output_spec(pipeline_of(pipeline@), state@, state@.target + 1),
{
    if pipeline.len() > 0 && state.target < pipeline[pipeline.len() - 1].redirection_files.len() {
        let next: usize = state.target + 1;
        redirect_output(pipeline, state, next)
    } else {
        finish(state)
    }
}

/// Takes one step of the run of `commands_and_arguments`: given where the
/// run stands and what came of the last action, says where it stands now
/// and what to do next.
pub fn execute_on_command_list(
    commands_and_arguments: &Vec<CommandData>,
    registry: &Registry,
    state: ExecutionState,
    event: Event,
) -> (res: (ExecutionState, Action))
    ensures
        (res.0@, res.1@) == step_spec(
            pipeline_of(commands_and_arguments@),
            registry@,
            state@,
            event@,
        ),
{
    let pipeline = commands_and_arguments;
    match state.phase {
        Phase::Ready => redirect_input(pipeline, registry, state),
        Phase::ReadingInput => match event {
            Event::Content { text } => execute_command(
                pipeline,
                registry,
                ExecutionState { input: Some(text), ..state },
                0,
            ),
            Event::Failed { reason } => {
                let message = join2("Could not read input file: ", reason.as_str());
                close_with(state, Action::Report { message })
            },
            _ => {
                let message = "Could not read input file: ".to_owned();
                assert(message@ =~= "Could not read input file: "@ + Seq::<char>::empty());
                close_with(state, Action::Report { message })
            },
        },
        Phase::RunningBuiltin => {
            if pipeline.len() == 1 {
                execute_on_command_data(pipeline, ExecutionState { live: false, ..state })
            } else {
                let message = if state.stage < pipeline.len() {
                    join3(
                        "Builtin command: ",
                        pipeline[state.stage].command.as_str(),
                        " encountered during piping, consider removing",
                    )
                } else {
                    let message = join3(
                        "Builtin command: ",
                        "",
                        " encountered during piping, consider removing",
                    );
                    proof {
                        reveal_strlit("");
                        assert(""@ =~= Seq::<char>::empty());
                    }
                    message
                };
                (
                    ExecutionState { phase: Phase::Diagnosing, live: false, ..state },
                    Action::Report { message },
                )
            }
        },
        Phase::Diagnosing => execute_next_command(pipeline, registry, state),
        Phase::Spawning => redirect_input_process(pipeline, registry, state, event),
        Phase::Feeding => match event {
            Event::Failed { reason } => (
                ExecutionState { phase: Phase::ReportingFeed, ..state },
                Action::Report { message: reason },
            ),
            _ => execute_next_command(pipeline, registry, state),
        },
        Phase::ReportingFeed => execute_next_command(pipeline, registry, state),
        Phase::Collecting => redirect_output_process(pipeline, state, event),
        Phase::Writing => match event {
            Event::Failed { reason } => (
                ExecutionState { phase: Phase::ReportingWrite, ..state },
                Action::Report { message: reason },
            ),
            _ => redirect_next_output(pipeline, state),
        },
        Phase::ReportingWrite => redirect_next_output(pipeline, state),
        Phase::Closing => finish(state),
        Phase::Finished => finish(state),
    }
}

/// A run that has taken its first step.
#[derive(Debug, PartialEq)]
pub struct Execution {
    /// The stages of the line.
    pub pipeline: Vec<CommandData>,
    /// Where the run stands.
    pub state: ExecutionState,
    /// What the driver is to do first.
    pub action: Action,
}

/// The first step of the run of the line that `tree` stands for: the state
/// after it, and the action that it asks for.
pub open spec fn first_step(tree: Tree, tables: Tables) -> (Progress, Step) {
    step_spec(plan_spec(children_of(tree)), tables, initial_progress(), Signal::Start)
}

/// Builds the pipeline of a syntax tree and takes the first step of its
/// run.
pub fn read_ast_and_execute(ast_root: &ParseNode, registry: &Registry) -> (res: Execution)
    ensures
        pipeline_of(res.pipeline@) == plan_spec(children_of(ast_root@)),
        (res.state@, res.action@) == first_step(ast_root@, registry@),
{
    proof {
        lemma_view_children(*ast_root);
    }
    let pipeline = match &ast_root.children {
        Some(expr_children) => accumulate_commands_and_arguments(expr_children),
        None => {
            let none: Vec<ParseNode> = Vec::new();
            assert(forest(none@) =~= Seq::<Tree>::empty());
            accumulate_commands_and_arguments(&none)
        },
    };
    let (state, action) = execute_on_command_list(
        &pipeline,
        registry,
        ExecutionState::new(),
        Event::Start,
    );
    Execution { pipeline, state, action }
}

/// Reads a line: splits it into tokens, parses them, builds the pipeline
/// and takes the first step of its run. A line that does not parse gives
/// the parser's error and runs nothing.
pub fn execute_input(input: &str, registry: &Registry) -> (res: Result<Execution, ParseError>)
    ensures
        match parse_spec(split_spec(input@)) {
            Ok(tree) => {
                &&& res matches Ok(execution)
                &&& pipeline_of(execution.pipeline@) == plan_spec(children_of(tree))
                &&& (execution.state@, execution.action@) == first_step(tree, registry@)
            },
            Err(failure) => {
                &&& res matches Err(error)
                &&& error@ == failure
            },
        },
{
    let commands = split_input(input);
    match parse_input(&commands) {
        Ok(ast_root) => Ok(read_ast_and_execute(&ast_root, registry)),
        Err(error) => Err(error),
    }
}

} // verus!
