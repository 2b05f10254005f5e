//! The builtins that work on paths, each as a state machine.
//!
//! A builtin touches no file itself. Each step takes the reply to the last
//! request and answers with the next request: look at a path, create or
//! remove something, ask the user, print. Its driver does what is asked and
//! comes back with the reply. The paths are gone through in order, each to
//! its end before the next.

use vstd::prelude::*;
use crate::text::{join2, join3};
use crate::token::{split_input, split_spec};

verus! {

/// What is found at a path.
#[derive(Clone, Copy, Debug, PartialEq, Eq, Structural)]
pub enum PathKind {
    /// Nothing is there.
    Missing,
    /// A file.
    File,
    /// A folder.
    Folder,
    /// Something that is neither.
    Other,
}

/// What a builtin asks of its driver.
#[derive(Debug, PartialEq)]
pub enum Request {
    /// Say what is at `path`.
    Probe { path: String },
    /// Count the entries of the folder at `path`.
    CountEntries { path: String },
    /// Give the entries of the folder at `path`.
    ListFolder { path: String },
    /// Make the folder at `path` the one that the shell works in.
    ChangeFolder { path: String },
    /// Create the file at `path`, empty.
    CreateFile { path: String },
    /// Open the file at `path` and close it again.
    OpenFile { path: String },
    /// Read the file at `path` whole, as text.
    ReadText { path: String },
    /// Create the folder at `path`, with the folders above it.
    CreateFolder { path: String },
    /// Remove the file at `path`.
    RemoveFile { path: String },
    /// Remove the folder at `path`, which is empty.
    RemoveFolder { path: String },
    /// Remove the folder at `path` with all that it holds.
    RemoveTree { path: String },
    /// Print `prompt` and read one line from the user.
    Ask { prompt: String },
    /// Print `text` and end the line.
    Print { text: String },
    /// Run `program` and wait for it.
    Run { program: String },
    /// End the shell with `status`.
    Exit { status: i32 },
    /// Nothing is left to do.
    Finished,
}

/// The mathematical value of a [`Request`].
pub enum Demand {
    Probe { path: Seq<char> },
    CountEntries { path: Seq<char> },
    ListFolder { path: Seq<char> },
    ChangeFolder { path: Seq<char> },
    CreateFile { path: Seq<char> },
    OpenFile { path: Seq<char> },
    ReadText { path: Seq<char> },
    CreateFolder { path: Seq<char> },
    RemoveFile { path: Seq<char> },
    RemoveFolder { path: Seq<char> },
    RemoveTree { path: Seq<char> },
    Ask { prompt: Seq<char> },
    Print { text: Seq<char> },
    Run { program: Seq<char> },
    Exit { status: i32 },
    Finished,
}

impl View for Request {
    type V = Demand;

    open spec fn view(&self) -> Demand {
        match self {
            Request::Probe { path } => Demand::Probe { path: path@ },
            Request::CountEntries { path } => Demand::CountEntries { path: path@ },
            Request::ListFolder { path } => Demand::ListFolder { path: path@ },
            Request::ChangeFolder { path } => Demand::ChangeFolder { path: path@ },
            Request::CreateFile { path } => Demand::CreateFile { path: path@ },
            Request::OpenFile { path } => Demand::OpenFile { path: path@ },
            Request::ReadText { path } => Demand::ReadText { path: path@ },
            Request::CreateFolder { path } => Demand::CreateFolder { path: path@ },
            Request::RemoveFile { path } => Demand::RemoveFile { path: path@ },
            Request::RemoveFolder { path } => Demand::RemoveFolder { path: path@ },
            Request::RemoveTree { path } => Demand::RemoveTree { path: path@ },
            Request::Ask { prompt } => Demand::Ask { prompt: prompt@ },
            Request::Print { text } => Demand::Print { text: text@ },
            Request::Run { program } => Demand::Run { program: program@ },
            Request::Exit { status } => Demand::Exit { status: *status },
            Request::Finished => Demand::Finished,
        }
    }
}

/// What an entry of a folder is.
#[derive(Clone, Copy, Debug, PartialEq, Eq, Structural)]
pub enum EntryKind {
    File,
    Folder,
    Symlink,
    Other,
}

/// A moment: seconds and nanoseconds since the first of January 1970, 0:00
/// UTC.
#[derive(Clone, Copy, Debug, PartialEq, Eq, Structural)]
pub struct Timestamp {
    pub seconds: i64,
    pub nanoseconds: u32,
}

/// What a folder entry's metadata say: when it was last modified, if that
/// is known, and its size, written out.
#[derive(Debug, PartialEq)]
pub struct EntryDetails {
    pub modified: Option<Timestamp>,
    pub size: String,
}

/// An entry of a folder: its name, if that is text; what it is; and its
/// metadata, if they could be read.
#[derive(Debug, PartialEq)]
pub struct Entry {
    pub name: Option<String>,
    pub kind: EntryKind,
    pub details: Option<EntryDetails>,
}

/// The mathematical value of an [`EntryDetails`].
pub struct ListedDetails {
    pub modified: Option<Timestamp>,
    pub size: Seq<char>,
}

/// The mathematical value of an [`Entry`].
pub struct Listed {
    pub name: Option<Seq<char>>,
    pub kind: EntryKind,
    pub details: Option<ListedDetails>,
}

impl DeepView for Entry {
    type V = Listed;

    open spec fn deep_view(&self) -> Listed {
        Listed {
            name: match self.name {
                Some(name) => Some(name@),
                None => None,
            },
            kind: self.kind,
            details: match self.details {
                Some(details) => Some(
                    ListedDetails { modified: details.modified, size: details.size@ },
                ),
                None => None,
            },
        }
    }
}

/// What came of the last request.
#[derive(Debug, PartialEq)]
pub enum Reply {
    /// No request was made yet.
    Start,
    /// The request was carried out.
    Done,
    /// The request failed, for the reason given.
    Failed { reason: String },
    /// What is at the path.
    Kind(PathKind),
    /// How many entries the folder has.
    Count(usize),
    /// The entries of the folder.
    Entries(Vec<Entry>),
    /// The line that the user gave, or the text that the file holds.
    Text { text: String },
}

/// The mathematical value of a [`Reply`].
pub enum Answer {
    Start,
    Done,
    Failed { reason: Seq<char> },
    Kind(PathKind),
    Count(nat),
    Entries(Seq<Listed>),
    Text { text: Seq<char> },
}

impl View for Reply {
    type V = Answer;

    open spec fn view(&self) -> Answer {
        match self {
            Reply::Start => Answer::Start,
            Reply::Done => Answer::Done,
            Reply::Failed { reason } => Answer::Failed { reason: reason@ },
            Reply::Kind(kind) => Answer::Kind(*kind),
            Reply::Count(count) => Answer::Count(*count as nat),
            Reply::Entries(entries) => Answer::Entries(entries.deep_view()),
            Reply::Text { text } => Answer::Text { text: text@ },
        }
    }
}

/// Which request a builtin waits on.
#[derive(Clone, Copy, Debug, PartialEq, Eq, Structural)]
pub enum CommandPhase {
    /// None yet.
    Ready,
    /// The printing of a path above its listing.
    Heading,
    /// The look at a path.
    Probing,
    /// The counting of a folder's entries.
    Counting,
    /// The listing of a folder's entries.
    Listing,
    /// The user's answer.
    Asking,
    /// The creation of a folder.
    Creating,
    /// The creation of a file.
    CreatingFile,
    /// The opening of a file.
    Opening,
    /// The printing of a file's name above what it holds.
    Announcing,
    /// The reading of a file.
    Reading,
    /// The removal of a file.
    RemovingFile,
    /// The removal of a folder.
    RemovingFolder,
    /// The change of the working folder.
    Moving,
    /// The run of a program.
    Running,
    /// A line that ends the work on a path.
    Saying,
    /// A line that ends the builtin.
    Closing,
    /// Nothing: the builtin is done.
    Finished,
}

/// Where a builtin stands: what it waits on, and for which of its paths.
#[derive(Clone, Copy, Debug, PartialEq, Eq, Structural)]
pub struct CommandState {
    pub phase: CommandPhase,
    pub index: usize,
}

/// The builtins that go through their paths one by one.
#[derive(Clone, Copy, Debug, PartialEq, Eq, Structural)]
pub enum PathCommand {
    Create,
    CreateFolder,
    Mkdir,
    Remove,
    RemoveFolder,
    Show,
    Touch,
}

/// The state before the first step.
pub open spec fn initial_state() -> CommandState {
    CommandState { phase: CommandPhase::Ready, index: 0 }
}

impl CommandState {
    /// The state before the first step.
    pub fn new() -> (res: CommandState)
        ensures
            res == initial_state(),
    {
        CommandState { phase: CommandPhase::Ready, index: 0 }
    }
}

/// A yes: the line's only word is `y`.
pub open spec fn confirms_spec(line: Seq<char>) -> bool {
    split_spec(line) == seq![seq!['y']]
}

/// Tells whether the user's line is a yes.
pub fn confirms(line: &str) -> (res: bool)
    ensures
        res == confirms_spec(line@),
{
    let words = split_input(line);
    let ghost yes = seq![seq!['y']];
    assert(yes.len() == 1 && yes[0] == seq!['y']);
    assert(words.deep_view().len() == words.len());
    if words.len() == 1 {
        let word = words[0];
        assert(words.deep_view()[0] == word@);
        if word.unicode_len() == 1 {
            let c = word.get_char(0);
            assert(word@ =~= seq![c]);
            assert(seq!['y'][0] == 'y');
            assert(c == 'y' ==> words.deep_view() =~= yes);
            c == 'y'
        } else {
            assert(seq!['y'].len() == 1);
            false
        }
    } else {
        false
    }
}

/// The path at `index`.
pub open spec fn path_at(paths: Seq<Seq<char>>, index: int) -> Seq<char> {
    if 0 <= index < paths.len() {
        paths[index]
    } else {
        Seq::empty()
    }
}

/// What an answer says of a path: nothing is there, unless it says
/// otherwise.
pub open spec fn kind_of(answer: Answer) -> PathKind {
    match answer {
        Answer::Kind(kind) => kind,
        _ => PathKind::Missing,
    }
}

/// The reason that a failure gave; none for another answer.
pub open spec fn reason_of(answer: Answer) -> Seq<char> {
    match answer {
        Answer::Failed { reason } => reason,
        _ => Seq::empty(),
    }
}

/// The builtin is done.
pub open spec fn done_spec(state: CommandState) -> (CommandState, Demand) {
    (CommandState { phase: CommandPhase::Finished, ..state }, Demand::Finished)
}

/// One line is printed, then the next path is due.
pub open spec fn say_spec(state: CommandState, text: Seq<char>) -> (CommandState, Demand) {
    (CommandState { phase: CommandPhase::Saying, ..state }, Demand::Print { text })
}

/// One line is printed, then the builtin is done.
pub open spec fn tell_spec(state: CommandState, text: Seq<char>) -> (CommandState, Demand) {
    (CommandState { phase: CommandPhase::Closing, ..state }, Demand::Print { text })
}

/// The state with another phase.
pub open spec fn in_phase(state: CommandState, phase: CommandPhase) -> CommandState {
    CommandState { phase, ..state }
}

/// The start of the work on the path at `index`: a folder to remove is
/// counted, anything else is looked at first. Behind the last path the
/// builtin is done.
pub open spec fn begin_path_spec(
    command: PathCommand,
    paths: Seq<Seq<char>>,
    state: CommandState,
    index: int,
) -> (CommandState, Demand) {
    if 0 <= index < paths.len() && index <= usize::MAX {
        if command == PathCommand::RemoveFolder {
            (
                CommandState { phase: CommandPhase::Counting, index: index as usize },
                Demand::CountEntries { path: paths[index] },
            )
        } else {
            (
                CommandState { phase: CommandPhase::Probing, index: index as usize },
                Demand::Probe { path: paths[index] },
            )
        }
    } else {
        done_spec(state)
    }
}

/// What a builtin says when it needs a path and got none.
pub open spec fn plea(command: PathCommand) -> Option<Seq<char>> {
    match command {
        PathCommand::Create => Some("Please provide a filename to create!"@),
        PathCommand::Touch => Some("Please provide a filename to create!"@),
        PathCommand::Show => Some("Pass in a file and I will SHOW you the contents"@),
        _ => None,
    }
}

/// How a builtin that creates folders calls what it could not create.
pub open spec fn failure_word(command: PathCommand) -> Seq<char> {
    if command == PathCommand::Mkdir {
        "Failed to create directory: "@
    } else {
        "Failed to create folder: "@
    }
}

/// The question before a folder is removed with what it holds.
pub open spec fn removal_prompt(path: Seq<char>) -> Seq<char> {
    "This directory is not empty, would you like to remove all contents in: \n "@ + path
        + " ? (y,n)"@
}

/// The question before a file is written over.
pub open spec fn overwrite_prompt(path: Seq<char>) -> Seq<char> {
    "File: "@ + path + " already exists. Would you like to overwrite the file? (y/n)"@
}

/// What a builtin does with a path once it knows what is there.
///
/// `create` asks before it writes over a file, leaves a folder alone and
/// creates anything else. `touch` creates what is missing and opens what is
/// there. `create_folder` and `mkdir` create what is missing. `remove` and
/// `remove_folder` count a folder and remove anything else that is there.
/// `show` reads a file.
pub open spec fn probed_spec(
    command: PathCommand,
    state: CommandState,
    path: Seq<char>,
    kind: PathKind,
) -> (CommandState, Demand) {
    match command {
        PathCommand::Create => match kind {
            PathKind::File => (
                in_phase(state, CommandPhase::Asking),
                Demand::Ask { prompt: overwrite_prompt(path) },
            ),
            PathKind::Folder => say_spec(state, "Folder: "@ + path + " already exists!"@),
            _ => (in_phase(state, CommandPhase::CreatingFile), Demand::CreateFile { path }),
        },
        PathCommand::Touch => match kind {
            PathKind::Missing => (
                in_phase(state, CommandPhase::CreatingFile),
                Demand::CreateFile { path },
            ),
            _ => (in_phase(state, CommandPhase::Opening), Demand::OpenFile { path }),
        },
        PathCommand::CreateFolder | PathCommand::Mkdir => match kind {
            PathKind::Missing => (
                in_phase(state, CommandPhase::Creating),
                Demand::CreateFolder { path },
            ),
            _ => say_spec(state, path + " already exists"@),
        },
        PathCommand::Remove | PathCommand::RemoveFolder => match kind {
            PathKind::Missing => say_spec(state, "Could not find the file: "@ + path),
            PathKind::Folder => (
                in_phase(state, CommandPhase::Counting),
                Demand::CountEntries { path },
            ),
            _ => (in_phase(state, CommandPhase::RemovingFile), Demand::RemoveFile { path }),
        },
        PathCommand::Show => match kind {
            PathKind::File => (
                in_phase(state, CommandPhase::Announcing),
                Demand::Print { text: "Showing file "@ + path },
            ),
            _ => say_spec(state, "Cannot print out non-file contents."@),
        },
    }
}

/// One step of a builtin over `paths`. Each path is looked at and dealt
/// with as the builtin deals with what is there; each thing done, and each
/// failure, is printed; a folder that holds something is removed, and a
/// file written over, only after the user said yes.
pub open spec fn path_command_spec(
    command: PathCommand,
    paths: Seq<Seq<char>>,
    state: CommandState,
    answer: Answer,
) -> (CommandState, Demand) {
    let path = path_at(paths, state.index as int);
    let next = begin_path_spec(command, paths, state, state.index + 1);
    match state.phase {
        CommandPhase::Ready => if paths.len() == 0 && plea(command) is Some {
            tell_spec(state, plea(command)->0)
        } else {
            begin_path_spec(command, paths, state, 0)
        },
        CommandPhase::Probing => probed_spec(command, state, path, kind_of(answer)),
        CommandPhase::Creating => match answer {
            Answer::Failed { reason } => say_spec(
                state,
                failure_word(command) + path + "\n"@ + reason,
            ),
            _ => next,
        },
        CommandPhase::CreatingFile => match answer {
            Answer::Failed { reason } => say_spec(state, "Could not create file. Error: "@ + reason),
            _ => say_spec(state, "File: "@ + path + " has been created."@),
        },
        CommandPhase::Opening => match answer {
            Answer::Failed { reason } => say_spec(state, "Error when updating file "@ + reason),
            _ => say_spec(state, "File: "@ + path + " times updated."@),
        },
        CommandPhase::Announcing => (
            in_phase(state, CommandPhase::Reading),
            Demand::ReadText { path },
        ),
        CommandPhase::Reading => match answer {
            Answer::Text { text } => say_spec(state, text),
            _ => say_spec(
                state,
                "Could not read file "@ + path + " \n Error "@ + reason_of(answer),
            ),
        },
        CommandPhase::Counting => match answer {
            Answer::Count(count) => if count == 0 {
                (in_phase(state, CommandPhase::RemovingFolder), Demand::RemoveFolder { path })
            } else {
                (
                    in_phase(state, CommandPhase::Asking),
                    Demand::Ask { prompt: removal_prompt(path) },
                )
            },
            _ => say_spec(state, "Failed to remove directory with error: "@ + reason_of(answer)),
        },
        CommandPhase::Asking => match answer {
            Answer::Text { text } => if !confirms_spec(text) {
                next
            } else if command == PathCommand::Create {
                (in_phase(state, CommandPhase::CreatingFile), Demand::CreateFile { path })
            } else {
                (in_phase(state, CommandPhase::RemovingFolder), Demand::RemoveTree { path })
            },
            Answer::Failed { reason } => say_spec(
                state,
                if command == PathCommand::Create {
                    "Error while reading input: "@ + reason
                } else {
                    "Error reading input: "@ + reason
                },
            ),
            _ => next,
        },
        CommandPhase::RemovingFile => match answer {
            Answer::Failed { reason } => say_spec(
                state,
                "Failed to remove file with error: "@ + reason,
            ),
            _ => say_spec(state, "Removed file: "@ + path),
        },
        CommandPhase::RemovingFolder => match answer {
            Answer::Failed { reason } => say_spec(
                state,
                "Failed to remove directory with error: "@ + reason,
            ),
            _ => say_spec(state, "Removed directory: "@ + path),
        },
        CommandPhase::Saying => next,
        _ => done_spec(state),
    }
}

/// Ends the builtin.
pub(crate) fn done(state: CommandState) -> (res: (CommandState, Request))
    ensures
        (res.0, res.1@) == done_spec(state),
{
    (CommandState { phase: CommandPhase::Finished, ..state }, Request::Finished)
}

/// Prints one line; the next path is due behind it.
pub(crate) fn say(state: CommandState, text: String) -> (res: (CommandState, Request))
    ensures
        (res.0, res.1@) == say_spec(state, text@),
{
    (CommandState { phase: CommandPhase::Saying, ..state }, Request::Print { text })
}

/// Prints one line; the builtin is done behind it.
pub(crate) fn tell(state: CommandState, text: String) -> (res: (CommandState, Request))
    ensures
        (res.0, res.1@) == tell_spec(state, text@),
{
    (CommandState { phase: CommandPhase::Closing, ..state }, Request::Print { text })
}

/// What a reply says of a path.
pub(crate) fn kind_in(reply: &Reply) -> (res: PathKind)
    ensures
        res == kind_of(reply@),
{
    match reply {
        Reply::Kind(kind) => *kind,
        _ => PathKind::Missing,
    }
}

/// The reason that a failure gave; none for another reply.
pub(crate) fn reason_in(reply: Reply) -> (res: String)
    ensures
        res@ == reason_of(reply@),
{
    match reply {
        Reply::Failed { reason } => reason,
        _ => String::new(),
    }
}

/// A copy of the path at `index`.
pub(crate) fn path_in(filepaths: &Vec<String>, index: usize) -> (res: String)
    ensures
        res@ == path_at(filepaths.deep_view(), index as int),
{
    if index < filepaths.len() {
        filepaths[index].clone()
    } else {
        String::new()
    }
}

/// Starts the work on the path at `index`.
fn begin_path(command: PathCommand, filepaths: &Vec<String>, state: CommandState, index: usize) -> (res:
    (CommandState, Request))
    ensures
        (res.0, res.1@) == begin_path_spec(command, filepaths.deep_view(), state, index as int),
{
    if index < filepaths.len() {
        let path = filepaths[index].clone();
        match command {
            PathCommand::RemoveFolder => (
                CommandState { phase: CommandPhase::Counting, index },
                Request::CountEntries { path },
            ),
            _ => (CommandState { phase: CommandPhase::Probing, index }, Request::Probe { path }),
        }
    } else {
        done(state)
    }
}

/// Starts the work on the path behind the one in hand.
fn next_path(command: PathCommand, filepaths: &Vec<String>, state: CommandState) -> (res: (
    CommandState,
    Request,
))
    ensures
        (res.0, res.1@) == begin_path_spec(
            command,
            filepaths.deep_view(),
            state,
            state.index + 1,
        ),
{
    if state.index < filepaths.len() {
        begin_path(command, filepaths, state, state.index + 1)
    } else {
        done(state)
    }
}

/// Deals with a path now that it is known what is there.
fn probed(command: PathCommand, state: CommandState, path: String, kind: PathKind) -> (res: (
    CommandState,
    Request,
))
    ensures
        (res.0, res.1@) == probed_spec(command, state, path@, kind),
{
    match command {
        PathCommand::Create => match kind {
            PathKind::File => {
                let prompt = join3(
                    "File: ",
                    path.as_str(),
                    " already exists. Would you like to overwrite the file? (y/n)",
                );
                (CommandState { phase: CommandPhase::Asking, ..state }, Request::Ask { prompt })
            },
            PathKind::Folder => say(state, join3("Folder: ", path.as_str(), " already exists!")),
            _ => (
                CommandState { phase: CommandPhase::CreatingFile, ..state },
                Request::CreateFile { path },
            ),
        },
        PathCommand::Touch => match kind {
            PathKind::Missing => (
                CommandState { phase: CommandPhase::CreatingFile, ..state },
                Request::CreateFile { path },
            ),
            _ => (
                CommandState { phase: CommandPhase::Opening, ..state },
                Request::OpenFile { path },
            ),
        },
        PathCommand::CreateFolder | PathCommand::Mkdir => match kind {
            PathKind::Missing => (
                CommandState { phase: CommandPhase::Creating, ..state },
                Request::CreateFolder { path },
            ),
            _ => say(state, join2(path.as_str(), " already exists")),
        },
        PathCommand::Remove | PathCommand::RemoveFolder => match kind {
            PathKind::Missing => say(state, join2("Could not find the file: ", path.as_str())),
            PathKind::Folder => (
                CommandState { phase: CommandPhase::Counting, ..state },
                Request::CountEntries { path },
            ),
            _ => (
                CommandState { phase: CommandPhase::RemovingFile, ..state },
                Request::RemoveFile { path },
            ),
        },
        PathCommand::Show => match kind {
            PathKind::File => (
                CommandState { phase: CommandPhase::Announcing, ..state },
                Request::Print { text: join2("Showing file ", path.as_str()) },
            ),
            _ => say(state, "Cannot print out non-file contents.".to_owned()),
        },
    }
}

/// What a builtin says when it needs a path and got none.
fn plea_of(command: PathCommand) -> (res: Option<String>)
    ensures
        match res {
            Some(text) => plea(command) == Some(text@),
            None => plea(command) is None,
        },
{
    match command {
        PathCommand::Create => Some("Please provide a filename to create!".to_owned()),
        PathCommand::Touch => Some("Please provide a filename to create!".to_owned()),
        PathCommand::Show => Some("Pass in a file and I will SHOW you the contents".to_owned()),
        _ => None,
    }
}

/// Takes one step of the builtin `command` over `filepaths`.
pub fn path_command(
    command: PathCommand,
    filepaths: &Vec<String>,
    state: CommandState,
    reply: Reply,
) -> (res: (CommandState, Request))
    ensures
        (res.0, res.1@) == path_command_spec(command, filepaths.deep_view(), state, reply@),
{
    let path = path_in(filepaths, state.index);
    match state.phase {
        CommandPhase::Ready => {
            if filepaths.len() == 0 {
                match plea_of(command) {
                    Some(text) => tell(state, text),
                    None => begin_path(command, filepaths, state, 0),
                }
            } else {
                begin_path(command, filepaths, state, 0)
            }
        },
        CommandPhase::Probing => probed(command, state, path, kind_in(&reply)),
        CommandPhase::Creating => match reply {
            Reply::Failed { reason } => {
                let word = match command {
                    PathCommand::Mkdir => "Failed to create directory: ",
                    _ => "Failed to create folder: ",
                };
                let mut text = join3(word, path.as_str(), "\n");
                text.append(reason.as_str());
                say(state, text)
            },
            _ => next_path(command, filepaths, state),
        },
        CommandPhase::CreatingFile => match reply {
            Reply::Failed { reason } => say(
                state,
                join2("Could not create file. Error: ", reason.as_str()),
            ),
            _ => say(state, join3("File: ", path.as_str(), " has been created.")),
        },
        CommandPhase::Opening => match reply {
            Reply::Failed { reason } => say(
                state,
                join2("Error when updating file ", reason.as_str()),
            ),
            _ => say(state, join3("File: ", path.as_str(), " times updated.")),
        },
        CommandPhase::Announcing => (
            CommandState { phase: CommandPhase::Reading, ..state },
            Request::ReadText { path },
        ),
        CommandPhase::Reading => match reply {
            Reply::Text { text } => say(state, text),
            other => {
                let reason = reason_in(other);
                let mut text = join3("Could not read file ", path.as_str(), " \n Error ");
                text.append(reason.as_str());
                say(state, text)
            },
        },
        CommandPhase::Counting => match reply {
            Reply::Count(count) => {
                if count == 0 {
                    (
                        CommandState { phase: CommandPhase::RemovingFolder, ..state },
                        Request::RemoveFolder { path },
                    )
                } else {
                    let prompt = join3(
                        "This directory is not empty, would you like to remove all contents in: \n ",
                        path.as_str(),
                        " ? (y,n)",
                    );
                    (
                        CommandState { phase: CommandPhase::Asking, ..state },
                        Request::Ask { prompt },
                    )
                }
            },
            other => {
                let reason = reason_in(other);
                say(state, join2("Failed to remove directory with error: ", reason.as_str()))
            },
        },
        CommandPhase::Asking => match reply {
            Reply::Text { text } => {
                if !confirms(text.as_str()) {
                    next_path(command, filepaths, state)
                } else {
                    match command {
                        PathCommand::Create => (
                            CommandState { phase: CommandPhase::CreatingFile, ..state },
                            Request::CreateFile { path },
                        ),
                        _ => (
                            CommandState { phase: CommandPhase::RemovingFolder, ..state },
                            Request::RemoveTree { path },
                        ),
                    }
                }
            },
            Reply::Failed { reason } => {
                let word = match command {
                    PathCommand::Create => "Error while reading input: ",
                    _ => "Error reading input: ",
                };
                say(state, join2(word, reason.as_str()))
            },
            _ => next_path(command, filepaths, state),
        },
        CommandPhase::RemovingFile => match reply {
            Reply::Failed { reason } => say(
                state,
                join2("Failed to remove file with error: ", reason.as_str()),
            ),
            _ => say(state, join2("Removed file: ", path.as_str())),
        },
        CommandPhase::RemovingFolder => match reply {
            Reply::Failed { reason } => say(
                state,
                join2("Failed to remove directory with error: ", reason.as_str()),
            ),
            _ => say(state, join2("Removed directory: ", path.as_str())),
        },
        CommandPhase::Saying => next_path(command, filepaths, state),
        _ => done(state),
    }
}

/// Takes one step of `remove`: removes each path, a file at once, a folder
/// as `remove_folder` does.
pub fn remove(filepaths: &Vec<String>, state: CommandState, reply: Reply) -> (res: (
    CommandState,
    Request,
))
    ensures
        (res.0, res.1@) == path_command_spec(
            PathCommand::Remove,
            filepaths.deep_view(),
            state,
            reply@,
        ),
{
    path_command(PathCommand::Remove, filepaths, state, reply)
}

/// Takes one step of `remove_folder`: removes each folder, one that holds
/// something only after the user said yes.
pub fn remove_folder(filepaths: &Vec<String>, state: CommandState, reply: Reply) -> (res: (
    CommandState,
    Request,
))
    ensures
        (res.0, res.1@) == path_command_spec(
            PathCommand::RemoveFolder,
            filepaths.deep_view(),
            state,
            reply@,
        ),
{
    path_command(PathCommand::RemoveFolder, filepaths, state, reply)
}

/// Takes one step of `create_folder`: creates each folder that does not
/// exist yet.
pub fn create_folder(filepaths: &Vec<String>, state: CommandState, reply: Reply) -> (res: (
    CommandState,
    Request,
))
    ensures
        (res.0, res.1@) == path_command_spec(
            PathCommand::CreateFolder,
            filepaths.deep_view(),
            state,
            reply@,
        ),
{
    path_command(PathCommand::CreateFolder, filepaths, state, reply)
}

/// Takes one step of `mkdir`: `create_folder` under its other name, which
/// speaks of directories.
pub fn mkdir(filepaths: &Vec<String>, state: CommandState, reply: Reply) -> (res: (
    CommandState,
    Request,
))
    ensures
        (res.0, res.1@) == path_command_spec(
            PathCommand::Mkdir,
            filepaths.deep_view(),
            state,
            reply@,
        ),
{
    path_command(PathCommand::Mkdir, filepaths, state, reply)
}

/// Takes one step of `create`: creates each file, one that exists already
/// only after the user said yes.
pub fn create(filepaths: &Vec<String>, state: CommandState, reply: Reply) -> (res: (
    CommandState,
    Request,
))
    ensures
        (res.0, res.1@) == path_command_spec(
            PathCommand::Create,
            filepaths.deep_view(),
            state,
            reply@,
        ),
{
    path_command(PathCommand::Create, filepaths, state, reply)
}

/// Takes one step of `touch`: creates each file that is missing, and opens
/// each that is there.
pub fn touch(filepaths: &Vec<String>, state: CommandState, reply: Reply) -> (res: (
    CommandState,
    Request,
))
    ensures
        (res.0, res.1@) == path_command_spec(
            PathCommand::Touch,
            filepaths.deep_view(),
            state,
            reply@,
        ),
{
    path_command(PathCommand::Touch, filepaths, state, reply)
}

/// Takes one step of `show`: prints what each file holds, under its name.
pub fn show(filepaths: &Vec<String>, state: CommandState, reply: Reply) -> (res: (
    CommandState,
    Request,
))
    ensures
        (res.0, res.1@) == path_command_spec(
            PathCommand::Show,
            filepaths.deep_view(),
            state,
            reply@,
        ),
{
    path_command(PathCommand::Show, filepaths, state, reply)
}

/// One step of `change_folder`. Without a path it does nothing, with more
/// than one it complains. A folder becomes the working folder; anything
/// else is said not to be one.
pub open spec fn change_folder_spec(paths: Seq<Seq<char>>, state: CommandState, answer: Answer) -> (
    CommandState,
    Demand,
) {
    let path = path_at(paths, 0);
    match state.phase {
        CommandPhase::Ready => if paths.len() == 0 {
            done_spec(state)
        } else if paths.len() > 1 {
            tell_spec(state, "cd: too many arguments"@)
        } else {
            (in_phase(state, CommandPhase::Probing), Demand::Probe { path })
        },
        CommandPhase::Probing => match kind_of(answer) {
            PathKind::Folder => (
                in_phase(state, CommandPhase::Moving),
                Demand::ChangeFolder { path },
            ),
            PathKind::File => tell_spec(state, "\""@ + path + "\" is a file not a directory"@),
            _ => tell_spec(state, "\""@ + path + "\" no such file or directory"@),
        },
        CommandPhase::Moving => match answer {
            Answer::Failed { reason } => tell_spec(
                state,
                "Failed to change folder with error: "@ + reason,
            ),
            _ => done_spec(state),
        },
        _ => done_spec(state),
    }
}

/// Takes one step of `change_folder`.
pub fn change_folder(filepaths: &Vec<String>, state: CommandState, reply: Reply) -> (res: (
    CommandState,
    Request,
))
    ensures
        (res.0, res.1@) == change_folder_spec(filepaths.deep_view(), state, reply@),
{
    let path = path_in(filepaths, 0);
    match state.phase {
        CommandPhase::Ready => {
            if filepaths.len() == 0 {
                done(state)
            } else if filepaths.len() > 1 {
                tell(state, "cd: too many arguments".to_owned())
            } else {
                (CommandState { phase: CommandPhase::Probing, ..state }, Request::Probe { path })
            }
        },
        CommandPhase::Probing => match kind_in(&reply) {
            PathKind::Folder => (
                CommandState { phase: CommandPhase::Moving, ..state },
                Request::ChangeFolder { path },
            ),
            PathKind::File => tell(state, join3("\"", path.as_str(), "\" is a file not a directory")),
            _ => tell(state, join3("\"", path.as_str(), "\" no such file or directory")),
        },
        CommandPhase::Moving => match reply {
            Reply::Failed { reason } => tell(
                state,
                join2("Failed to change folder with error: ", reason.as_str()),
            ),
            _ => done(state),
        },
        _ => done(state),
    }
}

/// One step of `clear`: the program `clear` is run once, whatever the
/// paths; if it could not be run, the reason is printed.
pub open spec fn clear_spec(state: CommandState, answer: Answer) -> (CommandState, Demand) {
    match state.phase {
        CommandPhase::Ready => (
            in_phase(state, CommandPhase::Running),
            Demand::Run { program: "clear"@ },
        ),
        CommandPhase::Running => match answer {
            Answer::Failed { reason } => tell_spec(state, reason),
            _ => done_spec(state),
        },
        _ => done_spec(state),
    }
}

/// Takes one step of `clear`.
pub fn clear(filepaths: &Vec<String>, state: CommandState, reply: Reply) -> (res: (
    CommandState,
    Request,
))
    ensures
        (res.0, res.1@) == clear_spec(state, reply@),
{
    match state.phase {
        CommandPhase::Ready => (
            CommandState { phase: CommandPhase::Running, ..state },
            Request::Run { program: "clear".to_owned() },
        ),
        CommandPhase::Running => match reply {
            Reply::Failed { reason } => tell(state, reason),
            _ => done(state),
        },
        _ => done(state),
    }
}

/// One step of `exit`: the shell is ended with status 0, whatever the
/// paths.
pub open spec fn exit_spec(state: CommandState) -> (CommandState, Demand) {
    match state.phase {
        CommandPhase::Ready => (in_phase(state, CommandPhase::Closing), Demand::Exit { status: 0 }),
        _ => done_spec(state),
    }
}

/// Takes one step of `exit`.
pub fn exit(filepaths: &Vec<String>, state: CommandState, reply: Reply) -> (res: (
    CommandState,
    Request,
))
    ensures
        (res.0, res.1@) == exit_spec(state),
{
    match state.phase {
        CommandPhase::Ready => (
            CommandState { phase: CommandPhase::Closing, ..state },
            Request::Exit { status: 0 },
        ),
        _ => done(state),
    }
}

} // verus!
