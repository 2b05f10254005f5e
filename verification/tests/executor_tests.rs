use oxide::executor::{
    execute_command, execute_input, execute_on_command_data, execute_on_command_list,
    read_ast_and_execute, redirect_input, redirect_input_process, redirect_output,
    redirect_output_process, trailing_redirection, Action, Event, ExecutionState, InputSource,
    Phase,
};
use oxide::logic::{accumulate_commands_and_arguments, CommandData};
use oxide::parser::{parse_input, ParseErrorKind, RedirectionOp};
use oxide::registry::{Builtin, Registry};
use oxide::token::split_input;

fn plan(line: &str) -> Vec<CommandData> {
    let tokens = split_input(line);
    let root = parse_input(&tokens).unwrap();
    accumulate_commands_and_arguments(root.children.as_ref().unwrap())
}

fn strings(items: &[&str]) -> Vec<String> {
    items.iter().map(|item| item.to_string()).collect()
}

fn spawn(program: &str, arguments: &[&str], stdin: InputSource) -> Action {
    Action::Spawn { program: program.to_string(), arguments: strings(arguments), stdin }
}

fn failed(reason: &str) -> Event {
    Event::Failed { reason: reason.to_string() }
}

fn output(text: &str) -> Event {
    Event::Output { bytes: text.as_bytes().to_vec() }
}

fn report(message: &str) -> Action {
    Action::Report { message: message.to_string() }
}

fn print(text: &str) -> Action {
    Action::Print { text: text.to_string() }
}

/// Runs `line`, answering the actions with `events` in turn, and gives the
/// actions that were asked for.
fn run(line: &str, events: Vec<Event>) -> Vec<Action> {
    let pipeline = plan(line);
    let registry = Registry::standard();
    let mut state = ExecutionState::new();
    let mut actions = Vec::new();
    let mut event = Event::Start;
    let mut events = events.into_iter();
    loop {
        let (next, action) = execute_on_command_list(&pipeline, &registry, state, event);
        state = next;
        let finished = action == Action::Finished;
        actions.push(action);
        if finished {
            assert_eq!(state.phase, Phase::Finished);
            return actions;
        }
        event = events.next().unwrap_or(Event::Done);
    }
}

#[test]
fn three_stages_are_chained_and_the_last_output_is_printed() {
    let actions = run(
        "a | b | c",
        vec![Event::Done, Event::Done, Event::Done, output("from c\n"), Event::Done],
    );
    assert_eq!(
        actions,
        vec![
            spawn("a", &[], InputSource::FreshPipe),
            spawn("b", &[], InputSource::PreviousOutput),
            spawn("c", &[], InputSource::PreviousOutput),
            Action::Collect,
            print("from c\n"),
            Action::Finished,
        ]
    );
}

#[test]
fn a_single_program_reads_the_shells_input() {
    let actions = run("ls . -l", vec![Event::Done, output("x")]);
    assert_eq!(
        actions,
        vec![
            spawn("ls", &[".", "-l"], InputSource::Inherited),
            Action::Collect,
            print("x"),
            Action::Finished,
        ]
    );
}

#[test]
fn an_alias_names_the_program_and_its_first_arguments() {
    let actions = run("list .", vec![]);
    assert_eq!(actions[0], spawn("ls", &["."], InputSource::Inherited));
    let actions = run("removef a b | show", vec![]);
    assert_eq!(actions[0], spawn("rm", &["-r", "a", "b"], InputSource::FreshPipe));
    assert_eq!(actions[1], spawn("cat", &[], InputSource::PreviousOutput));
}

#[test]
fn a_builtin_alone_runs_in_process_and_prints_nothing_much() {
    let actions = run("cd /tmp", vec![]);
    assert_eq!(
        actions,
        vec![
            Action::RunBuiltin { builtin: Builtin::ChangeFolder, arguments: strings(&["/tmp"]) },
            print(""),
            Action::Finished,
        ]
    );
    let actions = run("exit", vec![failed("ignored")]);
    assert_eq!(actions[0], Action::RunBuiltin { builtin: Builtin::Exit, arguments: vec![] });
    assert_eq!(actions[1], print(""));
}

#[test]
fn a_builtin_wins_over_an_alias() {
    let mut registry = Registry::standard();
    registry.insert_alias("clear".to_string(), "reset".to_string());
    let pipeline = plan("clear");
    let (_, action) =
        execute_on_command_list(&pipeline, &registry, ExecutionState::new(), Event::Start);
    assert_eq!(action, Action::RunBuiltin { builtin: Builtin::Clear, arguments: vec![] });
}

#[test]
fn output_goes_to_each_target_in_turn() {
    let actions = run(
        "ls . | sort > out.txt other.txt",
        vec![Event::Done, Event::Done, output("b\na\n"), failed("denied"), Event::Done, Event::Done],
    );
    assert_eq!(
        actions,
        vec![
            spawn("ls", &["."], InputSource::FreshPipe),
            spawn("sort", &[], InputSource::PreviousOutput),
            Action::Collect,
            Action::WriteFile {
                path: "out.txt".to_string(),
                text: "b\na\n".to_string(),
                truncate: true
            },
            report("denied"),
            Action::WriteFile {
                path: "other.txt".to_string(),
                text: "b\na\n".to_string(),
                truncate: true
            },
            Action::Finished,
        ]
    );
}

#[test]
fn append_does_not_truncate() {
    let actions = run("echo hi >> log", vec![Event::Done, output("hi\n")]);
    assert_eq!(
        actions,
        vec![
            spawn("echo", &["hi"], InputSource::Inherited),
            Action::Collect,
            Action::WriteFile { path: "log".to_string(), text: "hi\n".to_string(), truncate: false },
            Action::Finished,
        ]
    );
}

#[test]
fn a_redirection_without_targets_writes_nothing() {
    let actions = run("echo hi >", vec![Event::Done, output("hi\n")]);
    assert_eq!(
        actions,
        vec![spawn("echo", &["hi"], InputSource::Inherited), Action::Collect, Action::Finished]
    );
}

#[test]
fn a_builtin_writes_its_empty_output_to_the_targets() {
    let actions = run("cd x > out", vec![]);
    assert_eq!(
        actions,
        vec![
            Action::RunBuiltin { builtin: Builtin::ChangeFolder, arguments: strings(&["x"]) },
            Action::WriteFile { path: "out".to_string(), text: String::new(), truncate: true },
            Action::Finished,
        ]
    );
}

#[test]
fn an_input_file_is_read_first_and_fed_to_the_program() {
    let actions = run(
        "cat < in.txt more.txt",
        vec![Event::Content { text: "data".to_string() }, Event::Done, Event::Done, output("data")],
    );
    assert_eq!(
        actions,
        vec![
            Action::ReadFile { path: "in.txt".to_string() },
            spawn("cat", &[], InputSource::FreshPipe),
            Action::FeedInput { text: "data".to_string() },
            Action::Collect,
            print("data"),
            Action::Finished,
        ]
    );
}

#[test]
fn an_input_file_feeds_the_first_stage_of_a_chain() {
    let actions = run(
        "sort | uniq < in",
        vec![
            Event::Content { text: "b\na\n".to_string() },
            Event::Done,
            failed("broken pipe"),
            Event::Done,
            Event::Done,
            output("a\nb\n"),
        ],
    );
    assert_eq!(
        actions,
        vec![
            Action::ReadFile { path: "in".to_string() },
            spawn("sort", &[], InputSource::FreshPipe),
            Action::FeedInput { text: "b\na\n".to_string() },
            report("broken pipe"),
            spawn("uniq", &[], InputSource::PreviousOutput),
            Action::Collect,
            print("a\nb\n"),
            Action::Finished,
        ]
    );
}

#[test]
fn an_input_file_that_cannot_be_read_ends_the_run() {
    let actions = run("cat < nowhere", vec![failed("No such file")]);
    assert_eq!(
        actions,
        vec![
            Action::ReadFile { path: "nowhere".to_string() },
            report("Could not read input file: No such file"),
            Action::Finished,
        ]
    );
    let actions = run("cat < nowhere", vec![Event::Done]);
    assert_eq!(actions[1], report("Could not read input file: "));
    let actions = run("cat <", vec![]);
    assert_eq!(actions, vec![report("No input file given."), Action::Finished]);
}

#[test]
fn a_builtin_is_not_fed_an_input_file() {
    let actions = run("cd < in", vec![]);
    assert_eq!(
        actions,
        vec![
            Action::RunBuiltin { builtin: Builtin::ChangeFolder, arguments: vec![] },
            Action::Finished,
        ]
    );
}

#[test]
fn a_failed_spawn_ends_the_run() {
    let actions = run("a | b | c", vec![Event::Done, failed("b: not found")]);
    assert_eq!(
        actions,
        vec![
            spawn("a", &[], InputSource::FreshPipe),
            spawn("b", &[], InputSource::PreviousOutput),
            report("b: not found"),
            Action::Finished,
        ]
    );
    let actions = run("list", vec![failed("not found")]);
    assert_eq!(
        actions,
        vec![
            spawn("ls", &[], InputSource::Inherited),
            report("Could not get output from command: ls"),
            Action::Finished,
        ]
    );
}

#[test]
fn a_builtin_amid_a_chain_breaks_it() {
    let actions = run("a | cd x | b", vec![Event::Done, Event::Done, Event::Done, Event::Done, output("o")]);
    assert_eq!(
        actions,
        vec![
            spawn("a", &[], InputSource::FreshPipe),
            Action::RunBuiltin { builtin: Builtin::ChangeFolder, arguments: strings(&["x"]) },
            report("Builtin command: cd encountered during piping, consider removing"),
            spawn("b", &[], InputSource::FreshPipe),
            Action::Collect,
            print("o"),
            Action::Finished,
        ]
    );
    let actions = run("a | clear", vec![]);
    assert_eq!(
        actions,
        vec![
            spawn("a", &[], InputSource::FreshPipe),
            Action::RunBuiltin { builtin: Builtin::Clear, arguments: vec![] },
            report("Builtin command: clear encountered during piping, consider removing"),
            Action::Finished,
        ]
    );
}

#[test]
fn output_that_is_no_text_is_reported() {
    let actions = run("a", vec![Event::Done, Event::Output { bytes: vec![0x66, 0xff, 0x6f] }]);
    assert_eq!(
        actions,
        vec![
            spawn("a", &[], InputSource::Inherited),
            Action::Collect,
            report("Could not read data from process into string!"),
            Action::Finished,
        ]
    );
    let actions = run("a > f", vec![Event::Done, Event::Output { bytes: vec![0xc3] }]);
    assert_eq!(actions[2], report("Could not read data from process into string!"));
    assert_eq!(actions[3], Action::Finished);
}

#[test]
fn output_bytes_are_decoded_as_utf8() {
    let actions = run("a", vec![Event::Done, Event::Output { bytes: vec![0x68, 0xc3, 0xa9, 0xe2, 0x82, 0xac] }]);
    assert_eq!(actions[2], print("hé€"));
    let actions = run("a", vec![Event::Done, Event::Output { bytes: vec![] }]);
    assert_eq!(actions[2], print(""));
}

#[test]
fn a_process_that_cannot_be_waited_for_is_reported() {
    let actions = run("a | b", vec![Event::Done, Event::Done, failed("gone")]);
    assert_eq!(actions[3], report("Could not get output from final command!"));
    let actions = run("a | b > f", vec![Event::Done, Event::Done, failed("gone")]);
    assert_eq!(
        actions[3],
        report("Could not get output from process during output redirection")
    );
    assert_eq!(actions[4], Action::Finished);
}

#[test]
fn an_empty_pipeline_is_finished_at_once() {
    let pipeline: Vec<CommandData> = Vec::new();
    let registry = Registry::new();
    let (state, action) =
        execute_on_command_list(&pipeline, &registry, ExecutionState::new(), Event::Start);
    assert_eq!(action, Action::Finished);
    assert_eq!(state.phase, Phase::Finished);
    let (state, action) = execute_on_command_list(&pipeline, &registry, state, Event::Done);
    assert_eq!(action, Action::Finished);
    assert_eq!(state.phase, Phase::Finished);
    assert_eq!(trailing_redirection(&pipeline), None);
}

#[test]
fn the_state_tells_where_the_run_stands() {
    let pipeline = plan("a | b > f g");
    let registry = Registry::standard();
    assert_eq!(trailing_redirection(&pipeline), Some(RedirectionOp::Output));
    let state = ExecutionState::new();
    assert_eq!(state.phase, Phase::Ready);
    assert_eq!((state.stage, state.target, state.live), (0, 0, false));
    assert_eq!(state.input, None);
    assert_eq!(state.output, "");
    let (state, _) = execute_on_command_list(&pipeline, &registry, state, Event::Start);
    assert_eq!((state.phase, state.stage, state.live), (Phase::Spawning, 0, false));
    let (state, _) = execute_on_command_list(&pipeline, &registry, state, Event::Done);
    assert_eq!((state.phase, state.stage, state.live), (Phase::Spawning, 1, true));
    let (state, _) = execute_on_command_list(&pipeline, &registry, state, Event::Done);
    assert_eq!((state.phase, state.stage, state.live), (Phase::Collecting, 1, true));
    let (state, _) = execute_on_command_list(&pipeline, &registry, state, output("x"));
    assert_eq!((state.phase, state.target, state.live), (Phase::Writing, 0, false));
    assert_eq!(state.output, "x");
    let (state, _) = execute_on_command_list(&pipeline, &registry, state, Event::Done);
    assert_eq!((state.phase, state.target), (Phase::Writing, 1));
    let (state, action) = execute_on_command_list(&pipeline, &registry, state, failed("no"));
    assert_eq!((state.phase, state.target), (Phase::ReportingWrite, 1));
    assert_eq!(action, report("no"));
    let (state, action) = execute_on_command_list(&pipeline, &registry, state, Event::Done);
    assert_eq!(state.phase, Phase::Finished);
    assert_eq!(action, Action::Finished);
}

#[test]
fn the_parts_of_a_step_can_be_taken_alone() {
    let pipeline = plan("a | list x < in");
    let registry = Registry::standard();
    let (state, action) = redirect_input(&pipeline, &registry, ExecutionState::new());
    assert_eq!(action, Action::ReadFile { path: "in".to_string() });
    assert_eq!(state.phase, Phase::ReadingInput);
    let (state, action) = execute_command(&pipeline, &registry, ExecutionState::new(), 1);
    assert_eq!(action, spawn("ls", &["x"], InputSource::FreshPipe));
    assert_eq!((state.phase, state.stage), (Phase::Spawning, 1));
    let (state, action) = redirect_input_process(&pipeline, &registry, state, Event::Done);
    assert_eq!(action, Action::Collect);
    assert!(state.live);
    let (state, action) = redirect_output_process(&pipeline, state, output("t"));
    assert_eq!(action, print("t"));
    assert!(!state.live);
    let (_, action) = execute_command(&pipeline, &registry, ExecutionState::new(), 2);
    assert_eq!(action, Action::Finished);
    let (_, action) = execute_on_command_data(&pipeline, ExecutionState::new());
    assert_eq!(action, Action::Finished);
    let writing = plan("a >> f");
    let mut state = ExecutionState::new();
    state.output = "kept".to_string();
    let (state, action) = redirect_output(&writing, state, 0);
    assert_eq!(
        action,
        Action::WriteFile { path: "f".to_string(), text: "kept".to_string(), truncate: false }
    );
    let (_, action) = redirect_output(&writing, state, 1);
    assert_eq!(action, Action::Finished);
}

#[test]
fn a_line_is_read_up_to_its_first_action() {
    let registry = Registry::standard();
    let execution = execute_input("  ls   . | sort > out.txt ", &registry).unwrap();
    assert_eq!(execution.pipeline.len(), 2);
    assert_eq!(execution.pipeline[1].redirection_files, vec!["out.txt"]);
    assert_eq!(execution.action, spawn("ls", &["."], InputSource::FreshPipe));
    assert_eq!(execution.state.phase, Phase::Spawning);
    let error = execute_input("ls |", &registry).unwrap_err();
    assert_eq!(error.kind, ParseErrorKind::ExpectedCommand);
    assert_eq!(error.token_index, 2);
    let error = execute_input("", &registry).unwrap_err();
    assert_eq!(error.token_index, 0);
    let tokens = vec!["cat", "<", "in.txt"];
    let root = parse_input(&tokens).unwrap();
    let execution = read_ast_and_execute(&root, &registry);
    assert_eq!(execution.action, Action::ReadFile { path: "in.txt".to_string() });
    assert_eq!(execution.pipeline[0].command, "cat");
}

#[test]
fn a_run_is_over_within_its_bound() {
    let lines = ["a", "cd", "a | b | c", "a | cd | b > f g h", "cat < in", "a | b < in more", "a >"];
    let registry = Registry::standard();
    for line in lines {
        let pipeline = plan(line);
        let targets = pipeline.last().map_or(0, |last| last.redirection_files.len());
        let bound = 4 * pipeline.len() + 2 * targets + 10;
        for answer in 0..4 {
            let mut state = ExecutionState::new();
            let mut event = Event::Start;
            let mut steps = 0;
            loop {
                let (next, action) = execute_on_command_list(&pipeline, &registry, state, event);
                state = next;
                steps += 1;
                assert!(steps <= bound, "line: {}", line);
                if action == Action::Finished {
                    break;
                }
                event = match answer {
                    0 => Event::Done,
                    1 => failed("no"),
                    2 => output("text"),
                    _ => Event::Content { text: "text".to_string() },
                };
            }
        }
    }
}
