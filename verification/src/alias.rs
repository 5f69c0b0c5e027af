//! The aliases that the directives of one module define.
//!
//! An alias names a command together with its first arguments. A later
//! directive of the same module whose command is the alias's name runs the
//! alias's command, with the alias's arguments in front of its own. The
//! command of an alias is never itself looked up as an alias.

use vstd::prelude::*;
use crate::error::ErrorKind;
use crate::text::{clone_strings, lemma_strings_view_push, strings_view};

verus! {

/// A command and the arguments that it always starts with.
#[derive(Clone, Debug, PartialEq, Eq)]
pub struct Alias {
    pub command: String,
    pub args: Vec<String>,
}

/// What an `Alias` stands for.
pub struct AliasView {
    pub command: Seq<char>,
    pub args: Seq<Seq<char>>,
}

impl View for Alias {
    type V = AliasView;

    open spec fn view(&self) -> AliasView {
        AliasView { command: self.command@, args: strings_view(self.args@) }
    }
}

struct AliasEntry {
    name: String,
    alias: Alias,
}

/// The aliases defined so far, by name. A later definition of a name replaces
/// the earlier one.
pub struct AliasRegistry {
    entries: Vec<AliasEntry>,
}

/// The map that a list of definitions makes up, later entries winning.
spec fn entries_map(entries: Seq<AliasEntry>) -> Map<Seq<char>, AliasView>
    decreases entries.len(),
{
    if entries.len() == 0 {
        Map::empty()
    } else {
        entries_map(entries.drop_last()).insert(entries.last().name@, entries.last().alias@)
    }
}

proof fn lemma_entries_map_found(entries: Seq<AliasEntry>, i: int, name: Seq<char>)
    requires
        0 <= i < entries.len(),
        entries[i].name@ == name,
        forall|j: int| i < j < entries.len() ==> (#[trigger] entries[j]).name@ != name,
    ensures
        entries_map(entries).dom().contains(name),
        entries_map(entries)[name] == entries[i].alias@,
    decreases entries.len(),
{
    if i < entries.len() - 1 {
        assert(entries.last().name@ != name);
        lemma_entries_map_found(entries.drop_last(), i, name);
    }
}

proof fn lemma_entries_map_absent(entries: Seq<AliasEntry>, name: Seq<char>)
    requires
        forall|j: int| 0 <= j < entries.len() ==> (#[trigger] entries[j]).name@ != name,
    ensures
        !entries_map(entries).dom().contains(name),
    decreases entries.len(),
{
    if entries.len() > 0 {
        assert(entries.last().name@ != name);
        lemma_entries_map_absent(entries.drop_last(), name);
    }
}

/// What a directive with the given command and arguments runs: the alias of
/// that name with the directive's arguments behind its own or, where no alias
/// has that name, the command itself.
pub open spec fn expansion(
    aliases: Map<Seq<char>, AliasView>,
    command: Seq<char>,
    args: Seq<Seq<char>>,
) -> AliasView {
    if aliases.dom().contains(command) {
        AliasView { command: aliases[command].command, args: aliases[command].args + args }
    } else {
        AliasView { command, args }
    }
}

/// A directive that names an alias runs the alias's command with the alias's
/// arguments first and its own behind them, whatever was defined before. The
/// alias's command is taken as it stands, also where it is an alias's name.
pub proof fn lemma_expansion_of_defined(
    aliases: Map<Seq<char>, AliasView>,
    name: Seq<char>,
    alias: AliasView,
    args: Seq<Seq<char>>,
)
    ensures
        expansion(aliases.insert(name, alias), name, args) == (AliasView {
            command: alias.command,
            args: alias.args + args,
        }),
{
}

/// A directive whose command no alias is named after runs as it is written.
pub proof fn lemma_expansion_of_undefined(
    aliases: Map<Seq<char>, AliasView>,
    command: Seq<char>,
    args: Seq<Seq<char>>,
)
    requires
        !aliases.dom().contains(command),
    ensures
        expansion(aliases, command, args) == (AliasView { command, args }),
{
}

/// `first` followed by `second`.
fn concat_strings(first: &Vec<String>, second: &Vec<String>) -> (r: Vec<String>)
    ensures
        strings_view(r@) == strings_view(first@) + strings_view(second@),
{
    let mut r = clone_strings(first);
    let mut k: usize = 0;
    assert(strings_view(r@) =~= strings_view(first@) + strings_view(second@).take(0));
    while k < second.len()
        invariant
            k <= second.len(),
            strings_view(r@) == strings_view(first@) + strings_view(second@).take(k as int),
        decreases second.len() - k,
    {
        let item = second[k].clone();
        proof {
            lemma_strings_view_push(r@, item);
            assert(strings_view(first@) + strings_view(second@).take(k + 1) =~= (strings_view(
                first@,
            ) + strings_view(second@).take(k as int)).push(item@));
        }
        r.push(item);
        k += 1;
    }
    assert(strings_view(second@).take(second.len() as int) =~= strings_view(second@));
    r
}

impl View for AliasRegistry {
    type V = Map<Seq<char>, AliasView>;

    closed spec fn view(&self) -> Map<Seq<char>, AliasView> {
        entries_map(self.entries@)
    }
}

impl AliasRegistry {
    /// A registry without aliases.
    pub fn new() -> (r: AliasRegistry)
        ensures
            r@ == Map::<Seq<char>, AliasView>::empty(),
    {
        AliasRegistry { entries: Vec::new() }
    }

    /// Defines the alias `name`, in place of an earlier alias of that name.
    pub fn define(&mut self, name: &String, command: &String, args: &Vec<String>)
        ensures
            final(self)@ == old(self)@.insert(
                name@,
                AliasView { command: command@, args: strings_view(args@) },
            ),
    {
        let entry = AliasEntry {
            name: name.clone(),
            alias: Alias { command: command.clone(), args: clone_strings(args) },
        };
        proof {
            assert(self.entries@.push(entry).drop_last() =~= self.entries@);
        }
        self.entries.push(entry);
    }

    /// The alias called `name`, if one is defined. Only the exact name counts.
    pub fn resolve(&self, name: &String) -> (r: Option<&Alias>)
        ensures
            match r {
                Some(alias) => self@.dom().contains(name@) && self@[name@] == alias@,
                None => !self@.dom().contains(name@),
            },
    {
        let mut i: usize = self.entries.len();
        while i > 0
            invariant
                i <= self.entries.len(),
                forall|j: int|
                    i <= j < self.entries.len() ==> (#[trigger] self.entries@[j]).name@ != name@,
            decreases i,
        {
            i -= 1;
            if self.entries[i].name == *name {
                proof {
                    lemma_entries_map_found(self.entries@, i as int, name@);
                }
                return Some(&self.entries[i].alias);
            }
        }
        proof {
            lemma_entries_map_absent(self.entries@, name@);
        }
        None
    }

    /// Expands the alias `name` with further arguments: the alias's command,
    /// and the alias's arguments followed by `args`.
    ///
    /// Fails with `UnknownAlias`, and only with it, exactly where no alias
    /// called `name` is defined.
    pub fn expand(&self, name: &String, args: &Vec<String>) -> (r: Result<Alias, ErrorKind>)
        ensures
            match r {
                Ok(expanded) => self@.dom().contains(name@) && expanded@ == (AliasView {
                    command: self@[name@].command,
                    args: self@[name@].args + strings_view(args@),
                }),
                Err(e) => !self@.dom().contains(name@) && e == ErrorKind::UnknownAlias,
            },
    {
        match self.resolve(name) {
            Some(alias) => Ok(
                Alias { command: alias.command.clone(), args: concat_strings(&alias.args, args) },
            ),
            None => Err(ErrorKind::UnknownAlias),
        }
    }

    /// What a directive with the given command and arguments runs: the
    /// expansion of the alias called `command` or, where there is none, the
    /// command and arguments as they are.
    pub fn resolve_command(&self, command: &String, args: &Vec<String>) -> (r: Alias)
        ensures
            r@ == expansion(self@, command@, strings_view(args@)),
    {
        match self.expand(command, args) {
            Ok(expanded) => expanded,
            Err(_) => Alias { command: command.clone(), args: clone_strings(args) },
        }
    }
}

} // verus!
