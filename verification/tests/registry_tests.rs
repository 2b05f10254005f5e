use oxide::config::{HistoryFinding, OxideHistory};
use oxide::registry::{Builtin, Registry, Resolution};
use oxide::text::{decimal_string, join2, join3};

fn name(text: &str) -> String {
    text.to_string()
}

fn external(program: &str, leading: &[&str]) -> Resolution {
    Resolution::External {
        program: program.to_string(),
        leading: leading.iter().map(|item| item.to_string()).collect(),
    }
}

#[test]
fn an_empty_registry_knows_nothing() {
    let registry = Registry::new();
    assert_eq!(registry.builtin(&name("cd")), None);
    assert_eq!(registry.alias(&name("list")), None);
    assert_eq!(registry.resolve(&name("cd")), external("cd", &[]));
}

#[test]
fn the_standard_registry_holds_the_shells_tables() {
    let registry = Registry::standard();
    assert_eq!(registry.builtin(&name("exit")), Some(Builtin::Exit));
    assert_eq!(registry.builtin(&name("cd")), Some(Builtin::ChangeFolder));
    assert_eq!(registry.builtin(&name("cf")), Some(Builtin::ChangeFolder));
    assert_eq!(registry.builtin(&name("clear")), Some(Builtin::Clear));
    assert_eq!(registry.builtin(&name("list")), None);
    assert_eq!(registry.builtin(&name("")), None);
    assert_eq!(registry.alias(&name("list")), Some(&name("ls")));
    assert_eq!(registry.alias(&name("show")), Some(&name("cat")));
    assert_eq!(registry.alias(&name("remove")), Some(&name("rm")));
    assert_eq!(registry.alias(&name("removef")), Some(&name("rm -r")));
    assert_eq!(registry.alias(&name("create")), Some(&name("touch")));
    assert_eq!(registry.alias(&name("createf")), Some(&name("mkdir")));
    assert_eq!(registry.alias(&name("cd")), None);
    assert_eq!(registry.alias(&name("ls")), None);
}

#[test]
fn a_name_is_resolved_builtin_first_then_alias() {
    let mut registry = Registry::standard();
    assert_eq!(registry.resolve(&name("cd")), Resolution::Builtin(Builtin::ChangeFolder));
    assert_eq!(registry.resolve(&name("list")), external("ls", &[]));
    assert_eq!(registry.resolve(&name("removef")), external("rm", &["-r"]));
    assert_eq!(registry.resolve(&name("grep")), external("grep", &[]));
    registry.insert_builtin(name("list"), Builtin::List);
    assert_eq!(registry.resolve(&name("list")), Resolution::Builtin(Builtin::List));
    assert_eq!(registry.alias(&name("list")), Some(&name("ls")));
}

#[test]
fn a_later_entry_replaces_an_earlier_one() {
    let mut registry = Registry::new();
    registry.insert_alias(name("l"), name("ls -l"));
    registry.insert_alias(name("x"), name("y"));
    registry.insert_alias(name("l"), name("  ls   -a  -h "));
    assert_eq!(registry.alias(&name("l")), Some(&name("  ls   -a  -h ")));
    assert_eq!(registry.resolve(&name("l")), external("ls", &["-a", "-h"]));
    assert_eq!(registry.resolve(&name("x")), external("y", &[]));
    registry.insert_builtin(name("b"), Builtin::Show);
    registry.insert_builtin(name("b"), Builtin::Touch);
    assert_eq!(registry.builtin(&name("b")), Some(Builtin::Touch));
}

#[test]
fn an_alias_without_a_word_leaves_the_name_alone() {
    let mut registry = Registry::new();
    registry.insert_alias(name("blank"), name("  \t"));
    registry.insert_alias(name("none"), name(""));
    assert_eq!(registry.resolve(&name("blank")), external("blank", &[]));
    assert_eq!(registry.resolve(&name("none")), external("none", &[]));
}

#[test]
fn numbers_are_written_in_decimal() {
    assert_eq!(decimal_string(0), "0");
    assert_eq!(decimal_string(7), "7");
    assert_eq!(decimal_string(10), "10");
    assert_eq!(decimal_string(1234567890), "1234567890");
    assert_eq!(decimal_string(usize::MAX), usize::MAX.to_string());
    assert_eq!(join2("a", "b"), "ab");
    assert_eq!(join2("", ""), "");
    assert_eq!(join3("a", "é", "c"), "aéc");
}

#[test]
fn the_history_is_usable_when_its_file_is_there() {
    let path = String::from("/home/u/.config/oxide/history.txt");
    let found = OxideHistory::new(path.clone(), &HistoryFinding::Found);
    assert_eq!(found, OxideHistory { exists: true, path: path.clone() });
    let created = OxideHistory::new(path.clone(), &HistoryFinding::Created);
    assert_eq!(created, OxideHistory { exists: true, path: path.clone() });
    let failed = HistoryFinding::CreationFailed { reason: String::from("denied") };
    assert_eq!(OxideHistory::new(path.clone(), &failed), OxideHistory { exists: false, path });
    let none = OxideHistory::new(String::from("ignored"), &HistoryFinding::NoConfigFolder);
    assert_eq!(none, OxideHistory { exists: false, path: String::new() });
    assert_eq!(OxideHistory::path_parts(), vec!["oxide", "history.txt"]);
}

#[test]
fn the_shell_warns_when_it_has_no_history() {
    assert_eq!(OxideHistory::warning(&HistoryFinding::Found), None);
    assert_eq!(OxideHistory::warning(&HistoryFinding::Created), None);
    assert_eq!(
        OxideHistory::warning(&HistoryFinding::NoConfigFolder),
        Some(String::from(
            "Could not find configuration folder. Oxide will have reduced functionality."
        ))
    );
    let failed = HistoryFinding::CreationFailed { reason: String::from("denied") };
    let warning = OxideHistory::warning(&failed).unwrap();
    assert!(warning.starts_with("Could not create oxide configuration file due to error: denied\n"));
    assert!(warning.ends_with(" Oxide will have reduced functionality."));
    assert_eq!(warning.len(), 63 + 33 + 38);
}
