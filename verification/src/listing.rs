//! The builtin `list`: what it asks for, and how it writes an entry down.

use chrono::TimeZone;
use vstd::prelude::*;
use crate::commands::{
    done, done_spec, in_phase, kind_in, kind_of, path_at, path_in, reason_in, reason_of, say,
    say_spec, Answer, CommandPhase, CommandState, Demand, Entry, EntryKind, Listed, PathKind,
    Reply, Request, Timestamp,
};
use crate::text::join2;

verus! {

/// How `list` marks what an entry is.
pub open spec fn type_tag(kind: EntryKind) -> Seq<char> {
    match kind {
        EntryKind::File => "<file>"@,
        EntryKind::Folder => "<dir>"@,
        EntryKind::Symlink => "<sym>"@,
        EntryKind::Other => Seq::empty(),
    }
}

/// `text`, filled up with spaces behind it to `width` characters. A longer
/// text stays as it is.
pub open spec fn pad_right_spec(text: Seq<char>, width: nat) -> Seq<char> {
    if text.len() >= width {
        text
    } else {
        text + Seq::new((width - text.len()) as nat, |i: int| ' ')
    }
}

/// The line of an entry whose metadata are known: its mark in six columns,
/// when it was modified, its size in nine columns, and its name, with two
/// spaces between each two.
pub open spec fn form_list_string_spec(
    kind: EntryKind,
    modified: Seq<char>,
    size: Seq<char>,
    filename: Seq<char>,
) -> Seq<char> {
    pad_right_spec(type_tag(kind), 6) + "  "@ + modified + "  "@ + pad_right_spec(size, 9) + "  "@
        + filename
}

/// The line of an entry, given how the time of its last modification is
/// written. An entry without metadata is its name alone; one whose name is
/// no text is an apology.
pub open spec fn entry_line(entry: Listed, stamp: Seq<char>) -> Seq<char> {
    match entry.name {
        None => "Could not convert path to utf-8 string. What funky OS are you using?"@,
        Some(name) => match entry.details {
            None => name,
            Some(details) => form_list_string_spec(
                entry.kind,
                if details.modified is Some {
                    stamp
                } else {
                    Seq::empty()
                },
                details.size,
                name,
            ),
        },
    }
}

/// The lines of `entries`, one below the other, the time of the entry at
/// `i` written as `stamps[i]`.
pub open spec fn listing(entries: Seq<Listed>, stamps: Seq<Seq<char>>) -> Seq<char>
    decreases entries.len(),
{
    if entries.len() == 0 {
        Seq::empty()
    } else if entries.len() == 1 {
        entry_line(entries[0], stamps[0])
    } else {
        listing(entries.drop_last(), stamps) + "\n"@ + entry_line(
            entries.last(),
            stamps[entries.len() - 1],
        )
    }
}

/// A listing reads as many stamps as it has entries, and no more.
proof fn lemma_listing_reads_a_prefix(
    entries: Seq<Listed>,
    first: Seq<Seq<char>>,
    second: Seq<Seq<char>>,
)
    requires
        forall|i: int| 0 <= i < entries.len() ==> first[i] == second[i],
    ensures
        listing(entries, first) == listing(entries, second),
    decreases entries.len(),
{
    if entries.len() > 1 {
        lemma_listing_reads_a_prefix(entries.drop_last(), first, second);
    }
}

/// The mark of an entry.
pub fn _get_file_type_string(kind: EntryKind) -> (res: &'static str)
    ensures
        res@ == type_tag(kind),
{
    match kind {
        EntryKind::File => "<file>",
        EntryKind::Folder => "<dir>",
        EntryKind::Symlink => "<sym>",
        EntryKind::Other => {
            proof {
                reveal_strlit("");
            }
            assert(""@ =~= Seq::<char>::empty());
            ""
        },
    }
}

/// Fills `text` up with spaces to `width` characters.
pub fn pad_right(text: &str, width: usize) -> (res: String)
    ensures
        res@ == pad_right_spec(text@, width as nat),
{
    let mut res = text.to_owned();
    let mut length: usize = text.unicode_len();
    proof {
        reveal_strlit(" ");
    }
    if length >= width {
        return res;
    }
    assert(res@ =~= text@ + Seq::new(0, |i: int| ' '));
    while length < width
        invariant
            text@.len() <= length <= width,
            " "@ == seq![' '],
            res@ == text@ + Seq::new((length - text@.len()) as nat, |i: int| ' '),
        decreases width - length,
    {
        let ghost before = res@;
        res.append(" ");
        length += 1;
        assert(res@ =~= text@ + Seq::new((length - text@.len()) as nat, |i: int| ' '));
    }
    res
}

/// Writes down an entry whose metadata are known.
pub fn _form_list_string(kind: EntryKind, modified: &str, size: &str, filename: &str) -> (res:
    String)
    ensures
        res@ == form_list_string_spec(kind, modified@, size@, filename@),
{
    let mut res = pad_right(_get_file_type_string(kind), 6);
    res.append("  ");
    res.append(modified);
    res.append("  ");
    let size_column = pad_right(size, 9);
    res.append(size_column.as_str());
    res.append("  ");
    res.append(filename);
    res
}

/// `TimeZone::timestamp_opt` on chrono's `Local`, then `DateTime::format`
/// with `%d/%m/%Y %H:%M`: the moment as day, month, year, hour and minute on
/// this machine's clock. chrono has no date for a moment beyond its range,
/// or with nanoseconds that make no second: then there is none. The text
/// hangs on the machine's time zone, so nothing is claimed of it.
#[verifier::external_body]
fn local_time_text(moment: Timestamp) -> Option<String> {
    match chrono::Local.timestamp_opt(moment.seconds, moment.nanoseconds) {
        chrono::LocalResult::Single(time) => Some(time.format("%d/%m/%Y %H:%M").to_string()),
        chrono::LocalResult::Ambiguous(_, _) => None,
        chrono::LocalResult::None => None,
    }
}

/// When an entry was modified, as `list` writes it: nothing where that is
/// not known or has no date.
pub fn _get_file_modified(modified: Option<Timestamp>) -> (res: String)
    ensures
        modified is None ==> res@.len() == 0,
{
    match modified {
        Some(moment) => modified_text(local_time_text(moment)),
        None => String::new(),
    }
}

/// What `list` writes for a time once the clock was asked: the text that
/// came back, and nothing where none came back.
pub fn modified_text(written: Option<String>) -> (res: String)
    ensures
        res@ == match written {
            Some(text) => text@,
            None => Seq::<char>::empty(),
        },
{
    match written {
        Some(text) => text,
        None => String::new(),
    }
}

/// Writes down one entry.
pub fn describe_entry(entry: &Entry) -> (res: String)
    ensures
        exists|stamp: Seq<char>| res@ == entry_line(entry.deep_view(), stamp),
{
    match &entry.name {
        None => {
            let res = "Could not convert path to utf-8 string. What funky OS are you using?".to_owned();
            assert(res@ == entry_line(entry.deep_view(), Seq::empty()));
            res
        },
        Some(name) => match &entry.details {
            None => {
                let res = name.clone();
                assert(res@ == entry_line(entry.deep_view(), Seq::empty()));
                res
            },
            Some(details) => {
                let modified = _get_file_modified(details.modified);
                let res = _form_list_string(
                    entry.kind,
                    modified.as_str(),
                    details.size.as_str(),
                    name.as_str(),
                );
                assert(modified@ =~= Seq::empty() || details.modified is Some);
                assert(res@ == entry_line(entry.deep_view(), modified@));
                res
            },
        },
    }
}

/// Writes down the entries of a folder, one line each.
pub fn describe_entries(entries: &Vec<Entry>) -> (res: String)
    ensures
        exists|stamps: Seq<Seq<char>>|
            stamps.len() == entries.len() && res@ == listing(entries.deep_view(), stamps),
{
    let ghost all = entries.deep_view();
    let mut res = String::new();
    let ghost mut stamps: Seq<Seq<char>> = Seq::empty();
    let mut i: usize = 0;
    proof {
        assert(all.take(0) =~= Seq::<Listed>::empty());
    }
    while i < entries.len()
        invariant
            i <= entries.len(),
            all == entries.deep_view(),
            stamps.len() == i,
            res@ == listing(all.take(i as int), stamps),
        decreases entries.len() - i,
    {
        let line = describe_entry(&entries[i]);
        let ghost stamp = choose|stamp: Seq<char>| line@ == entry_line(all[i as int], stamp);
        let ghost longer = stamps.push(stamp);
        proof {
            assert(all.take(i + 1).drop_last() =~= all.take(i as int));
            assert(all.take(i + 1).last() == all[i as int]);
            lemma_listing_reads_a_prefix(all.take(i as int), stamps, longer);
        }
        if i > 0 {
            res.append("\n");
        } else {
            assert(res@ =~= Seq::<char>::empty());
            assert(Seq::<char>::empty() + line@ =~= line@);
        }
        res.append(line.as_str());
        proof {
            stamps = longer;
        }
        i += 1;
    }
    proof {
        assert(all.take(i as int) =~= all);
    }
    res
}

/// The paths that `list` goes through: those given, or the working folder
/// where none is given.
pub open spec fn listed_paths(paths: Seq<Seq<char>>) -> Seq<Seq<char>> {
    if paths.len() == 0 {
        seq!["."@]
    } else {
        paths
    }
}

/// The start of the work on the path at `index`. Among several paths each
/// is printed above its listing.
pub open spec fn begin_listing_spec(paths: Seq<Seq<char>>, state: CommandState, index: int) -> (
    CommandState,
    Demand,
) {
    if 0 <= index < paths.len() && index <= usize::MAX {
        if paths.len() > 1 {
            (
                CommandState { phase: CommandPhase::Heading, index: index as usize },
                Demand::Print { text: paths[index] },
            )
        } else {
            (
                CommandState { phase: CommandPhase::Probing, index: index as usize },
                Demand::Probe { path: paths[index] },
            )
        }
    } else {
        done_spec(state)
    }
}

/// How many entries an answer brings.
pub open spec fn entry_count(answer: Answer) -> nat {
    match answer {
        Answer::Entries(entries) => entries.len(),
        _ => 0,
    }
}

/// One step of `list`, the time of the entry at `i` written as
/// `stamps[i]`. The entries of each folder are asked for and printed, one
/// line each; a folder without entries prints nothing; a path that is no
/// folder is said so.
pub open spec fn list_spec(
    given: Seq<Seq<char>>,
    state: CommandState,
    answer: Answer,
    stamps: Seq<Seq<char>>,
) -> (CommandState, Demand) {
    let paths = listed_paths(given);
    let path = path_at(paths, state.index as int);
    let next = begin_listing_spec(paths, state, state.index + 1);
    match state.phase {
        CommandPhase::Ready => begin_listing_spec(paths, state, 0),
        CommandPhase::Heading => (in_phase(state, CommandPhase::Probing), Demand::Probe { path }),
        CommandPhase::Probing => match kind_of(answer) {
            PathKind::Folder => (
                in_phase(state, CommandPhase::Listing),
                Demand::ListFolder { path },
            ),
            PathKind::File => say_spec(
                state,
                "Can't list a file! But the file name is: "@ + path,
            ),
            _ => say_spec(state, "Not a valid directory: "@ + path),
        },
        CommandPhase::Listing => match answer {
            Answer::Entries(entries) => if entries.len() == 0 {
                next
            } else {
                say_spec(state, listing(entries, stamps))
            },
            _ => say_spec(state, "Error in list operation "@ + reason_of(answer)),
        },
        CommandPhase::Saying => next,
        _ => done_spec(state),
    }
}

/// Starts the work on the path at `index`.
fn begin_listing(paths: &Vec<String>, state: CommandState, index: usize) -> (res: (
    CommandState,
    Request,
))
    ensures
        (res.0, res.1@) == begin_listing_spec(paths.deep_view(), state, index as int),
{
    if index < paths.len() {
        let path = paths[index].clone();
        if paths.len() > 1 {
            (CommandState { phase: CommandPhase::Heading, index }, Request::Print { text: path })
        } else {
            (CommandState { phase: CommandPhase::Probing, index }, Request::Probe { path })
        }
    } else {
        done(state)
    }
}

/// Starts the work on the path behind the one in hand.
fn next_listing(paths: &Vec<String>, state: CommandState) -> (res: (CommandState, Request))
    ensures
        (res.0, res.1@) == begin_listing_spec(paths.deep_view(), state, state.index + 1),
{
    if state.index < paths.len() {
        begin_listing(paths, state, state.index + 1)
    } else {
        done(state)
    }
}

/// Takes one step of `list` over paths of which there is at least one.
fn list_paths(paths: &Vec<String>, state: CommandState, reply: Reply) -> (res: (
    CommandState,
    Request,
))
    requires
        paths.len() > 0,
    ensures
        exists|stamps: Seq<Seq<char>>|
            stamps.len() == entry_count(reply@) && (res.0, res.1@) == list_spec(
                paths.deep_view(),
                state,
                reply@,
                stamps,
            ),
{
    let ghost none: Seq<Seq<char>> = Seq::empty();
    let ghost given = paths.deep_view();
    let ghost answer = reply@;
    let path = path_in(paths, state.index);
    match state.phase {
        CommandPhase::Listing => match reply {
            Reply::Entries(entries) => {
                assert(answer == Answer::Entries(entries.deep_view()));
                if entries.len() == 0 {
                    let res = next_listing(paths, state);
                    assert(none.len() == entry_count(answer));
                    assert((res.0, res.1@) == list_spec(given, state, answer, none));
                    res
                } else {
                    let text = describe_entries(&entries);
                    let ghost written = text@;
                    let res = say(state, text);
                    proof {
                        let stamps = choose|stamps: Seq<Seq<char>>|
                            stamps.len() == entries.len() && written == listing(
                                entries.deep_view(),
                                stamps,
                            );
                        assert(stamps.len() == entry_count(answer));
                        assert((res.0, res.1@) == list_spec(given, state, answer, stamps));
                    }
                    res
                }
            },
            other => {
                let reason = reason_in(other);
                let res = say(state, join2("Error in list operation ", reason.as_str()));
                assert(none.len() == entry_count(answer));
                assert((res.0, res.1@) == list_spec(given, state, answer, none));
                res
            },
        },
        _ => {
            let res = match state.phase {
                CommandPhase::Ready => begin_listing(paths, state, 0),
                CommandPhase::Heading => (
                    CommandState { phase: CommandPhase::Probing, ..state },
                    Request::Probe { path },
                ),
                CommandPhase::Probing => match kind_in(&reply) {
                    PathKind::Folder => (
                        CommandState { phase: CommandPhase::Listing, ..state },
                        Request::ListFolder { path },
                    ),
                    PathKind::File => say(
                        state,
                        join2("Can't list a file! But the file name is: ", path.as_str()),
                    ),
                    _ => say(state, join2("Not a valid directory: ", path.as_str())),
                },
                CommandPhase::Saying => next_listing(paths, state),
                _ => done(state),
            };
            proof {
                let blank = Seq::new(entry_count(answer), |i: int| Seq::<char>::empty());
                assert(blank.len() == entry_count(answer));
                assert((res.0, res.1@) == list_spec(given, state, answer, blank));
            }
            res
        },
    }
}

/// Takes one step of `list`. What it prints for the entries of a folder
/// is their listing under some writing of their times.
pub fn list(filepaths: &Vec<String>, state: CommandState, reply: Reply) -> (res: (
    CommandState,
    Request,
))
    ensures
        exists|stamps: Seq<Seq<char>>|
            stamps.len() == entry_count(reply@) && (res.0, res.1@) == list_spec(
                filepaths.deep_view(),
                state,
                reply@,
                stamps,
            ),
{
    if filepaths.len() == 0 {
        let mut here: Vec<String> = Vec::new();
        here.push(".".to_owned());
        assert(here.deep_view() =~= seq!["."@]);
        assert(listed_paths(here.deep_view()) == listed_paths(filepaths.deep_view()));
        list_paths(&here, state, reply)
    } else {
        list_paths(filepaths, state, reply)
    }
}

} // verus!
