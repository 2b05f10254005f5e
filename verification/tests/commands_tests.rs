use chrono::{Local, TimeZone};
use oxide::commands::{
    change_folder, clear, confirms, create, create_folder, exit, mkdir, path_command, remove,
    remove_folder, show, touch, CommandPhase, CommandState, Entry, EntryDetails, EntryKind,
    PathCommand, PathKind, Reply, Request, Timestamp,
};
use oxide::listing::{
    _form_list_string, _get_file_modified, _get_file_type_string, describe_entries,
    describe_entry, list, modified_text, pad_right,
};

type Step = fn(&Vec<String>, CommandState, Reply) -> (CommandState, Request);

fn strings(items: &[&str]) -> Vec<String> {
    items.iter().map(|item| item.to_string()).collect()
}

fn failed(reason: &str) -> Reply {
    Reply::Failed { reason: reason.to_string() }
}

fn text(text: &str) -> Reply {
    Reply::Text { text: text.to_string() }
}

fn print(text: &str) -> Request {
    Request::Print { text: text.to_string() }
}

fn probe(path: &str) -> Request {
    Request::Probe { path: path.to_string() }
}

/// Runs a builtin over `paths`, answering its requests with `replies` in
/// turn, and gives the requests that it made.
fn run(step: Step, paths: &[&str], replies: Vec<Reply>) -> Vec<Request> {
    let paths = strings(paths);
    let mut state = CommandState::new();
    let mut requests = Vec::new();
    let mut reply = Reply::Start;
    let mut replies = replies.into_iter();
    loop {
        let (next, request) = step(&paths, state, reply);
        state = next;
        let finished = request == Request::Finished;
        requests.push(request);
        if finished {
            assert_eq!(state.phase, CommandPhase::Finished);
            return requests;
        }
        reply = replies.next().unwrap_or(Reply::Done);
    }
}

#[test]
fn a_yes_is_the_single_word_y() {
    assert!(confirms("y"));
    assert!(confirms("y\n"));
    assert!(confirms("  y \r\n"));
    for line in ["", "\n", "Y", "yes", "y y", "n", "yy", "é"] {
        assert!(!confirms(line), "line: {:?}", line);
    }
}

#[test]
fn create_folder_creates_what_is_missing() {
    let requests = run(
        create_folder,
        &["a", "b", "c"],
        vec![
            Reply::Kind(PathKind::Missing),
            Reply::Done,
            Reply::Kind(PathKind::Folder),
            Reply::Done,
            Reply::Kind(PathKind::Missing),
            failed("denied"),
        ],
    );
    assert_eq!(
        requests,
        vec![
            probe("a"),
            Request::CreateFolder { path: "a".to_string() },
            probe("b"),
            print("b already exists"),
            probe("c"),
            Request::CreateFolder { path: "c".to_string() },
            print("Failed to create folder: c\ndenied"),
            Request::Finished,
        ]
    );
    assert_eq!(run(create_folder, &[], vec![]), vec![Request::Finished]);
}

#[test]
fn mkdir_speaks_of_directories() {
    let requests = run(mkdir, &["c"], vec![Reply::Kind(PathKind::Missing), failed("denied")]);
    assert_eq!(requests[2], print("Failed to create directory: c\ndenied"));
    let requests = run(mkdir, &["f"], vec![Reply::Kind(PathKind::File)]);
    assert_eq!(requests, vec![probe("f"), print("f already exists"), Request::Finished]);
}

#[test]
fn remove_removes_files_and_asks_about_full_folders() {
    let requests = run(
        remove,
        &["gone", "file", "empty", "full", "kept"],
        vec![
            Reply::Kind(PathKind::Missing),
            Reply::Done,
            Reply::Kind(PathKind::File),
            Reply::Done,
            Reply::Done,
            Reply::Kind(PathKind::Folder),
            Reply::Count(0),
            Reply::Done,
            Reply::Done,
            Reply::Kind(PathKind::Folder),
            Reply::Count(3),
            text(" y\n"),
            failed("busy"),
            Reply::Done,
            Reply::Kind(PathKind::Folder),
            Reply::Count(1),
            text("n\n"),
        ],
    );
    assert_eq!(
        requests,
        vec![
            probe("gone"),
            print("Could not find the file: gone"),
            probe("file"),
            Request::RemoveFile { path: "file".to_string() },
            print("Removed file: file"),
            probe("empty"),
            Request::CountEntries { path: "empty".to_string() },
            Request::RemoveFolder { path: "empty".to_string() },
            print("Removed directory: empty"),
            probe("full"),
            Request::CountEntries { path: "full".to_string() },
            Request::Ask {
                prompt:
                    "This directory is not empty, would you like to remove all contents in: \n full ? (y,n)"
                        .to_string()
            },
            Request::RemoveTree { path: "full".to_string() },
            print("Failed to remove directory with error: busy"),
            probe("kept"),
            Request::CountEntries { path: "kept".to_string() },
            Request::Ask {
                prompt:
                    "This directory is not empty, would you like to remove all contents in: \n kept ? (y,n)"
                        .to_string()
            },
            Request::Finished,
        ]
    );
}

#[test]
fn remove_reports_what_fails() {
    let requests = run(remove, &["f"], vec![Reply::Kind(PathKind::Other), failed("denied")]);
    assert_eq!(requests[1], Request::RemoveFile { path: "f".to_string() });
    assert_eq!(requests[2], print("Failed to remove file with error: denied"));
    let requests = run(remove, &["d"], vec![Reply::Kind(PathKind::Folder), failed("denied")]);
    assert_eq!(requests[2], print("Failed to remove directory with error: denied"));
    let requests = run(
        remove,
        &["d"],
        vec![Reply::Kind(PathKind::Folder), Reply::Count(2), failed("closed")],
    );
    assert_eq!(requests[3], print("Error reading input: closed"));
    assert_eq!(requests[4], Request::Finished);
}

#[test]
fn remove_folder_counts_at_once() {
    let requests = run(remove_folder, &["d", "e"], vec![Reply::Count(0), Reply::Done, Reply::Done, Reply::Count(0), failed("no")]);
    assert_eq!(
        requests,
        vec![
            Request::CountEntries { path: "d".to_string() },
            Request::RemoveFolder { path: "d".to_string() },
            print("Removed directory: d"),
            Request::CountEntries { path: "e".to_string() },
            Request::RemoveFolder { path: "e".to_string() },
            print("Failed to remove directory with error: no"),
            Request::Finished,
        ]
    );
}

#[test]
fn create_asks_before_it_writes_over_a_file() {
    let requests = run(
        create,
        &["new", "old", "dir", "keep", "bad"],
        vec![
            Reply::Kind(PathKind::Missing),
            Reply::Done,
            Reply::Done,
            Reply::Kind(PathKind::File),
            text("y"),
            failed("full"),
            Reply::Done,
            Reply::Kind(PathKind::Folder),
            Reply::Done,
            Reply::Kind(PathKind::File),
            text("no"),
            Reply::Kind(PathKind::File),
            failed("closed"),
        ],
    );
    assert_eq!(
        requests,
        vec![
            probe("new"),
            Request::CreateFile { path: "new".to_string() },
            print("File: new has been created."),
            probe("old"),
            Request::Ask {
                prompt: "File: old already exists. Would you like to overwrite the file? (y/n)"
                    .to_string()
            },
            Request::CreateFile { path: "old".to_string() },
            print("Could not create file. Error: full"),
            probe("dir"),
            print("Folder: dir already exists!"),
            probe("keep"),
            Request::Ask {
                prompt: "File: keep already exists. Would you like to overwrite the file? (y/n)"
                    .to_string()
            },
            probe("bad"),
            Request::Ask {
                prompt: "File: bad already exists. Would you like to overwrite the file? (y/n)"
                    .to_string()
            },
            print("Error while reading input: closed"),
            Request::Finished,
        ]
    );
    assert_eq!(
        run(create, &[], vec![]),
        vec![print("Please provide a filename to create!"), Request::Finished]
    );
}

#[test]
fn touch_creates_or_opens() {
    let requests = run(
        touch,
        &["new", "old", "bad"],
        vec![
            Reply::Kind(PathKind::Missing),
            Reply::Done,
            Reply::Done,
            Reply::Kind(PathKind::Folder),
            Reply::Done,
            Reply::Done,
            Reply::Kind(PathKind::File),
            failed("denied"),
        ],
    );
    assert_eq!(
        requests,
        vec![
            probe("new"),
            Request::CreateFile { path: "new".to_string() },
            print("File: new has been created."),
            probe("old"),
            Request::OpenFile { path: "old".to_string() },
            print("File: old times updated."),
            probe("bad"),
            Request::OpenFile { path: "bad".to_string() },
            print("Error when updating file denied"),
            Request::Finished,
        ]
    );
    assert_eq!(
        run(touch, &[], vec![]),
        vec![print("Please provide a filename to create!"), Request::Finished]
    );
}

#[test]
fn show_prints_a_file_under_its_name() {
    let requests = run(
        show,
        &["f", "d", "g"],
        vec![
            Reply::Kind(PathKind::File),
            Reply::Done,
            text("hello\n"),
            Reply::Done,
            Reply::Kind(PathKind::Folder),
            Reply::Done,
            Reply::Kind(PathKind::File),
            Reply::Done,
            failed("binary"),
        ],
    );
    assert_eq!(
        requests,
        vec![
            probe("f"),
            print("Showing file f"),
            Request::ReadText { path: "f".to_string() },
            print("hello\n"),
            probe("d"),
            print("Cannot print out non-file contents."),
            probe("g"),
            print("Showing file g"),
            Request::ReadText { path: "g".to_string() },
            print("Could not read file g \n Error binary"),
            Request::Finished,
        ]
    );
    assert_eq!(
        run(show, &[], vec![]),
        vec![print("Pass in a file and I will SHOW you the contents"), Request::Finished]
    );
}

#[test]
fn change_folder_takes_one_folder() {
    assert_eq!(run(change_folder, &[], vec![]), vec![Request::Finished]);
    assert_eq!(
        run(change_folder, &["a", "b"], vec![]),
        vec![print("cd: too many arguments"), Request::Finished]
    );
    assert_eq!(
        run(change_folder, &["d"], vec![Reply::Kind(PathKind::Folder)]),
        vec![probe("d"), Request::ChangeFolder { path: "d".to_string() }, Request::Finished]
    );
    assert_eq!(
        run(change_folder, &["d"], vec![Reply::Kind(PathKind::Folder), failed("denied")]),
        vec![
            probe("d"),
            Request::ChangeFolder { path: "d".to_string() },
            print("Failed to change folder with error: denied"),
            Request::Finished
        ]
    );
    assert_eq!(
        run(change_folder, &["f"], vec![Reply::Kind(PathKind::File)]),
        vec![probe("f"), print("\"f\" is a file not a directory"), Request::Finished]
    );
    assert_eq!(
        run(change_folder, &["x"], vec![Reply::Kind(PathKind::Missing)]),
        vec![probe("x"), print("\"x\" no such file or directory"), Request::Finished]
    );
}

#[test]
fn clear_runs_the_program_clear() {
    assert_eq!(
        run(clear, &["ignored"], vec![]),
        vec![Request::Run { program: "clear".to_string() }, Request::Finished]
    );
    assert_eq!(
        run(clear, &[], vec![failed("not found")]),
        vec![Request::Run { program: "clear".to_string() }, print("not found"), Request::Finished]
    );
}

#[test]
fn exit_ends_the_shell_with_status_zero() {
    assert_eq!(
        run(exit, &["ignored"], vec![]),
        vec![Request::Exit { status: 0 }, Request::Finished]
    );
}

#[test]
fn a_builtin_can_be_named_by_its_kind() {
    let paths = strings(&["p"]);
    let (state, request) =
        path_command(PathCommand::Touch, &paths, CommandState::new(), Reply::Start);
    assert_eq!(request, probe("p"));
    assert_eq!(state, CommandState { phase: CommandPhase::Probing, index: 0 });
    let stale = CommandState { phase: CommandPhase::Saying, index: usize::MAX };
    let (state, request) = path_command(PathCommand::Remove, &paths, stale, Reply::Done);
    assert_eq!(request, Request::Finished);
    assert_eq!(state.phase, CommandPhase::Finished);
}

fn entry(name: &str, kind: EntryKind, modified: Option<Timestamp>, size: &str) -> Entry {
    Entry {
        name: Some(name.to_string()),
        kind,
        details: Some(EntryDetails { modified, size: size.to_string() }),
    }
}

fn stamp(seconds: i64) -> String {
    Local.timestamp_opt(seconds, 0).single().unwrap().format("%d/%m/%Y %H:%M").to_string()
}

#[test]
fn columns_are_filled_up_with_spaces() {
    assert_eq!(pad_right("", 3), "   ");
    assert_eq!(pad_right("ab", 3), "ab ");
    assert_eq!(pad_right("abc", 3), "abc");
    assert_eq!(pad_right("abcd", 3), "abcd");
    assert_eq!(pad_right("é", 2), "é ");
    assert_eq!(pad_right("x", 0), "x");
    assert_eq!(_get_file_type_string(EntryKind::File), "<file>");
    assert_eq!(_get_file_type_string(EntryKind::Folder), "<dir>");
    assert_eq!(_get_file_type_string(EntryKind::Symlink), "<sym>");
    assert_eq!(_get_file_type_string(EntryKind::Other), "");
}

#[test]
fn an_entry_is_written_in_four_columns() {
    assert_eq!(
        _form_list_string(EntryKind::Folder, "01/02/2003 04:05", "4.10 KB", "src"),
        format!("{0: <6}  {1}  {2: <9}  {3}", "<dir>", "01/02/2003 04:05", "4.10 KB", "src")
    );
    assert_eq!(
        _form_list_string(EntryKind::File, "", "123456.78 KB", "a b"),
        "<file>    123456.78 KB  a b"
    );
    assert_eq!(_form_list_string(EntryKind::Other, "t", "", ""), "        t             ");
}

#[test]
fn a_time_is_written_on_the_local_clock() {
    assert_eq!(_get_file_modified(None), "");
    for seconds in [0, 86_399, 1_600_000_000, -1] {
        let written = _get_file_modified(Some(Timestamp { seconds, nanoseconds: 0 }));
        assert_eq!(written, stamp(seconds));
        assert_eq!(written.len(), 16);
    }
    assert_eq!(_get_file_modified(Some(Timestamp { seconds: i64::MAX, nanoseconds: 0 })), "");
    assert_eq!(
        _get_file_modified(Some(Timestamp { seconds: 0, nanoseconds: 3_000_000_000 })),
        ""
    );
}

#[test]
fn a_time_that_has_no_text_is_written_as_nothing() {
    assert_eq!(modified_text(None), "");
    assert_eq!(modified_text(Some(String::new())), "");
    assert_eq!(modified_text(Some("01/02/2003 04:05".to_string())), "01/02/2003 04:05");
}

#[test]
fn entries_are_written_one_line_each() {
    let moment = Timestamp { seconds: 1_600_000_000, nanoseconds: 5 };
    let entries = vec![
        entry("a.txt", EntryKind::File, Some(moment), "0.01 KB"),
        Entry { name: None, kind: EntryKind::File, details: None },
        Entry { name: Some("bare".to_string()), kind: EntryKind::Symlink, details: None },
        entry("dir", EntryKind::Folder, None, "4.10 KB"),
    ];
    let first = format!("<file>  {}  0.01 KB    a.txt", stamp(1_600_000_000));
    assert_eq!(describe_entry(&entries[0]), first);
    assert_eq!(
        describe_entry(&entries[1]),
        "Could not convert path to utf-8 string. What funky OS are you using?"
    );
    assert_eq!(describe_entry(&entries[2]), "bare");
    assert_eq!(describe_entry(&entries[3]), "<dir>     4.10 KB    dir");
    assert_eq!(
        describe_entries(&entries),
        format!(
            "{}\nCould not convert path to utf-8 string. What funky OS are you using?\nbare\n<dir>     4.10 KB    dir",
            first
        )
    );
    assert_eq!(describe_entries(&Vec::new()), "");
    assert_eq!(describe_entries(&entries[2..3].iter().map(|e| Entry { name: e.name.clone(), kind: e.kind, details: None }).collect()), "bare");
}

#[test]
fn list_prints_the_entries_of_each_folder() {
    let requests = run(
        list,
        &[],
        vec![
            Reply::Kind(PathKind::Folder),
            Reply::Entries(vec![
                entry("b", EntryKind::File, None, "1.00 KB"),
                entry("a", EntryKind::Folder, None, "2.00 KB"),
            ]),
        ],
    );
    assert_eq!(
        requests,
        vec![
            probe("."),
            Request::ListFolder { path: ".".to_string() },
            print("<file>    1.00 KB    b\n<dir>     2.00 KB    a"),
            Request::Finished,
        ]
    );
    let requests = run(
        list,
        &["d", "f", "x", "e", "bad"],
        vec![
            Reply::Done,
            Reply::Kind(PathKind::Folder),
            Reply::Entries(vec![Entry { name: Some("n".to_string()), kind: EntryKind::Other, details: None }]),
            Reply::Done,
            Reply::Done,
            Reply::Kind(PathKind::File),
            Reply::Done,
            Reply::Done,
            Reply::Kind(PathKind::Missing),
            Reply::Done,
            Reply::Done,
            Reply::Kind(PathKind::Folder),
            Reply::Entries(vec![]),
            Reply::Done,
            Reply::Kind(PathKind::Folder),
            failed("denied"),
        ],
    );
    assert_eq!(
        requests,
        vec![
            print("d"),
            probe("d"),
            Request::ListFolder { path: "d".to_string() },
            print("n"),
            print("f"),
            probe("f"),
            print("Can't list a file! But the file name is: f"),
            print("x"),
            probe("x"),
            print("Not a valid directory: x"),
            print("e"),
            probe("e"),
            Request::ListFolder { path: "e".to_string() },
            print("bad"),
            probe("bad"),
            Request::ListFolder { path: "bad".to_string() },
            print("Error in list operation denied"),
            Request::Finished,
        ]
    );
}

#[test]
fn a_builtin_is_done_within_its_bound() {
    let steps: Vec<Step> =
        vec![change_folder, clear, create, create_folder, exit, list, mkdir, remove, remove_folder, show, touch];
    let replies: Vec<fn() -> Reply> = vec![
        || Reply::Done,
        || failed("no"),
        || Reply::Kind(PathKind::File),
        || Reply::Kind(PathKind::Folder),
        || Reply::Kind(PathKind::Missing),
        || Reply::Count(0),
        || Reply::Count(2),
        || text("y"),
        || Reply::Entries(vec![Entry { name: None, kind: EntryKind::Other, details: None }]),
    ];
    for paths in [strings(&[]), strings(&["a"]), strings(&["a", "b", "c"])] {
        let bound = 7 * paths.len().max(1) + 7;
        for step in &steps {
            for first in 0..replies.len() {
                let mut state = CommandState::new();
                let mut reply = Reply::Start;
                let mut taken = 0;
                loop {
                    let (next, request) = step(&paths, state, reply);
                    state = next;
                    taken += 1;
                    assert!(taken <= bound);
                    if request == Request::Finished {
                        break;
                    }
                    reply = replies[(first + taken) % replies.len()]();
                }
            }
        }
    }
}
