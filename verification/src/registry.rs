//! The two lookup tables of the shell: which command names run in process,
//! and which are other names for an external program.

use vstd::prelude::*;
use crate::token::{split_input, split_spec};

verus! {

/// A command that the shell runs itself instead of spawning a program.
#[derive(Clone, Copy, Debug, PartialEq, Eq, Structural)]
pub enum Builtin {
    ChangeFolder,
    Clear,
    Create,
    CreateFolder,
    Exit,
    List,
    Remove,
    RemoveFolder,
    Show,
    Touch,
}

/// The map that a list of entries stands for: a later entry replaces an
/// earlier one with the same name.
pub open spec fn table_of<V>(entries: Seq<(String, V)>) -> Map<Seq<char>, V>
    decreases entries.len(),
{
    if entries.len() == 0 {
        Map::empty()
    } else {
        table_of(entries.drop_last()).insert(entries.last().0@, entries.last().1)
    }
}

/// The value of the last entry named `name`, if there is one.
pub open spec fn lookup<V>(entries: Seq<(String, V)>, name: Seq<char>) -> Option<V>
    decreases entries.len(),
{
    if entries.len() == 0 {
        None
    } else if entries.last().0@ == name {
        Some(entries.last().1)
    } else {
        lookup(entries.drop_last(), name)
    }
}

/// The table of `entries` holds what `lookup` finds.
pub proof fn lemma_table_of<V>(entries: Seq<(String, V)>, name: Seq<char>)
    ensures
        table_of(entries).dom().contains(name) <==> lookup(entries, name) is Some,
        lookup(entries, name) matches Some(value) ==> table_of(entries)[name] == value,
    decreases entries.len(),
{
    if entries.len() > 0 {
        lemma_table_of(entries.drop_last(), name);
    }
}

/// The index of the last entry named `name`, if there is one.
fn find<V>(entries: &Vec<(String, V)>, name: &String) -> (res: Option<usize>)
    ensures
        res is Some <==> table_of(entries@).dom().contains(name@),
        res matches Some(i) ==> i < entries.len() && table_of(entries@)[name@] == entries[i as int].1,
{
    let mut at: usize = entries.len();
    proof {
        assert(entries@.take(at as int) =~= entries@);
        lemma_table_of(entries@, name@);
    }
    while at > 0
        invariant
            at <= entries.len(),
            lookup(entries@, name@) == lookup(entries@.take(at as int), name@),
        decreases at,
    {
        at -= 1;
        proof {
            assert(entries@.take(at + 1).drop_last() =~= entries@.take(at as int));
            assert(entries@.take(at + 1).last() == entries@[at as int]);
        }
        if entries[at].0 == *name {
            proof {
                lemma_table_of(entries@, name@);
            }
            return Some(at);
        }
    }
    proof {
        lemma_table_of(entries@, name@);
    }
    None
}

/// The lookup tables. Built once, then only read.
pub struct Registry {
    builtins: Vec<(String, Builtin)>,
    aliases: Vec<(String, String)>,
}

/// The mathematical value of a [`Registry`]: a handler for each builtin
/// name, and what each alias stands for.
pub struct Tables {
    pub builtins: Map<Seq<char>, Builtin>,
    pub aliases: Map<Seq<char>, Seq<char>>,
}

/// What a command name turns out to be.
#[derive(Debug, PartialEq)]
pub enum Resolution {
    /// A builtin, to run in process.
    Builtin(Builtin),
    /// An external program, with the arguments that go before the stage's
    /// own.
    External { program: String, leading: Vec<String> },
}

/// The mathematical value of a [`Resolution`].
pub enum Resolved {
    Builtin(Builtin),
    External { program: Seq<char>, leading: Seq<Seq<char>> },
}

impl View for Resolution {
    type V = Resolved;

    open spec fn view(&self) -> Resolved {
        match self {
            Resolution::Builtin(builtin) => Resolved::Builtin(*builtin),
            Resolution::External { program, leading } => Resolved::External {
                program: program@,
                leading: leading.deep_view(),
            },
        }
    }
}

/// What `name` stands for once an alias is written out: the first word of
/// the alias is the program, its other words go before the arguments. A
/// name without an alias, or with one that holds no word, stands for
/// itself.
pub open spec fn expand_alias(aliases: Map<Seq<char>, Seq<char>>, name: Seq<char>) -> Resolved {
    if aliases.dom().contains(name) && split_spec(aliases[name]).len() > 0 {
        Resolved::External {
            program: split_spec(aliases[name])[0],
            leading: split_spec(aliases[name]).drop_first(),
        }
    } else {
        Resolved::External { program: name, leading: Seq::empty() }
    }
}

/// The lookup order for a command name: the builtin table first, and only
/// for a name that it lacks the alias table.
pub open spec fn resolve_spec(tables: Tables, name: Seq<char>) -> Resolved {
    if tables.builtins.dom().contains(name) {
        Resolved::Builtin(tables.builtins[name])
    } else {
        expand_alias(tables.aliases, name)
    }
}

/// The alias table as a map to the characters of each target.
pub open spec fn alias_table(entries: Seq<(String, String)>) -> Map<Seq<char>, Seq<char>> {
    Map::new(
        |name: Seq<char>| table_of(entries).dom().contains(name),
        |name: Seq<char>| table_of(entries)[name]@,
    )
}

/// The tables that the shell starts with.
pub open spec fn standard_tables() -> Tables {
    Tables {
        builtins: Map::<Seq<char>, Builtin>::empty().insert("exit"@, Builtin::Exit).insert(
            "cd"@,
            Builtin::ChangeFolder,
        ).insert("cf"@, Builtin::ChangeFolder).insert("clear"@, Builtin::Clear),
        aliases: Map::<Seq<char>, Seq<char>>::empty().insert("list"@, "ls"@).insert(
            "show"@,
            "cat"@,
        ).insert("remove"@, "rm"@).insert("removef"@, "rm -r"@).insert("create"@, "touch"@).insert(
            "createf"@,
            "mkdir"@,
        ),
    }
}

impl View for Registry {
    type V = Tables;

    closed spec fn view(&self) -> Tables {
        Tables { builtins: table_of(self.builtins@), aliases: alias_table(self.aliases@) }
    }
}

impl Registry {
    /// A registry that knows no builtin and no alias.
    pub fn new() -> (res: Registry)
        ensures
            res@.builtins == Map::<Seq<char>, Builtin>::empty(),
            res@.aliases == Map::<Seq<char>, Seq<char>>::empty(),
    {
        let res = Registry { builtins: Vec::new(), aliases: Vec::new() };
        assert(res@.aliases =~= Map::<Seq<char>, Seq<char>>::empty());
        res
    }

    /// The registry that the shell starts with.
    pub fn standard() -> (res: Registry)
        ensures
            res@ == standard_tables(),
    {
        let mut res = Registry::new();
        res.insert_builtin("exit".to_owned(), Builtin::Exit);
        res.insert_builtin("cd".to_owned(), Builtin::ChangeFolder);
        res.insert_builtin("cf".to_owned(), Builtin::ChangeFolder);
        res.insert_builtin("clear".to_owned(), Builtin::Clear);
        res.insert_alias("list".to_owned(), "ls".to_owned());
        res.insert_alias("show".to_owned(), "cat".to_owned());
        res.insert_alias("remove".to_owned(), "rm".to_owned());
        res.insert_alias("removef".to_owned(), "rm -r".to_owned());
        res.insert_alias("create".to_owned(), "touch".to_owned());
        res.insert_alias("createf".to_owned(), "mkdir".to_owned());
        res
    }

    /// Makes `name` a builtin handled by `builtin`, in place of what it was.
    pub fn insert_builtin(&mut self, name: String, builtin: Builtin)
        ensures
            final(self)@.builtins == old(self)@.builtins.insert(name@, builtin),
            final(self)@.aliases == old(self)@.aliases,
    {
        let ghost before = self.builtins@;
        self.builtins.push((name, builtin));
        assert(self.builtins@.drop_last() =~= before);
    }

    /// Makes `name` an alias of `target`, in place of what it was.
    pub fn insert_alias(&mut self, name: String, target: String)
        ensures
            final(self)@.builtins == old(self)@.builtins,
            final(self)@.aliases == old(self)@.aliases.insert(name@, target@),
    {
        let ghost before = self.aliases@;
        self.aliases.push((name, target));
        assert(self.aliases@.drop_last() =~= before);
        assert(self@.aliases =~= old(self)@.aliases.insert(name@, target@));
    }

    /// The handler of `name`, if it is a builtin.
    pub fn builtin(&self, name: &String) -> (res: Option<Builtin>)
        ensures
            res is Some <==> self@.builtins.dom().contains(name@),
            res matches Some(builtin) ==> builtin == self@.builtins[name@],
    {
        match find(&self.builtins, name) {
            Some(i) => Some(self.builtins[i].1),
            None => None,
        }
    }

    /// What `name` is an alias of, if it is one.
    pub fn alias(&self, name: &String) -> (res: Option<&String>)
        ensures
            res is Some <==> self@.aliases.dom().contains(name@),
            res matches Some(target) ==> target@ == self@.aliases[name@],
    {
        match find(&self.aliases, name) {
            Some(i) => Some(&self.aliases[i].1),
            None => None,
        }
    }

    /// Resolves a command name: a builtin wins, else an alias is written
    /// out, else the name is the program.
    pub fn resolve(&self, name: &String) -> (res: Resolution)
        ensures
            res@ == resolve_spec(self@, name@),
    {
        if let Some(builtin) = self.builtin(name) {
            return Resolution::Builtin(builtin);
        }
        if let Some(target) = self.alias(name) {
            let words = split_input(target.as_str());
            if words.len() > 0 {
                let program = words[0].to_owned();
                let mut leading: Vec<String> = Vec::new();
                let mut i: usize = 1;
                while i < words.len()
                    invariant
                        1 <= i <= words.len(),
                        leading.deep_view() == words.deep_view().subrange(1, i as int),
                    decreases words.len() - i,
                {
                    let ghost before = leading.deep_view();
                    leading.push(words[i].to_owned());
                    assert(leading.deep_view() =~= before.push(words[i as int]@));
                    i += 1;
                    assert(leading.deep_view() =~= words.deep_view().subrange(1, i as int));
                }
                assert(words.deep_view().subrange(1, words.len() as int)
                    =~= words.deep_view().drop_first());
                return Resolution::External { program, leading };
            }
        }
        let leading: Vec<String> = Vec::new();
        assert(leading.deep_view() =~= Seq::<Seq<char>>::empty());
        Resolution::External { program: name.clone(), leading }
    }
}

} // verus!
