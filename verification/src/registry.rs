//! The registry a generator reads: the API it describes, its enums, its
//! commands, and the aliases that may stand in for a command.

use vstd::prelude::*;
use vstd::string::*;

use crate::text::views;

verus! {

/// The API a registry describes.
#[derive(Clone, Copy, Debug, PartialEq, Eq, Structural)]
pub enum Api {
    Gl,
    Glx,
    Wgl,
    Egl,
    GlCore,
    Gles1,
    Gles2,
    Glsc2,
}

/// An enum constant: its name, its value as written, whether the value needs
/// a cast to its type, and that type.
#[derive(Clone, Debug)]
pub struct Enum {
    pub ident: String,
    pub value: String,
    pub cast: bool,
    pub ty: String,
}

/// What an [`Enum`] holds, as contracts see it.
pub struct EnumView {
    pub ident: Seq<char>,
    pub value: Seq<char>,
    pub cast: bool,
    pub ty: Seq<char>,
}

impl View for Enum {
    type V = EnumView;

    open spec fn view(&self) -> EnumView {
        EnumView { ident: self.ident@, value: self.value@, cast: self.cast, ty: self.ty@ }
    }
}

/// A name with its type: a parameter of a command, or the command's own name
/// with the type it returns.
#[derive(Clone, Debug)]
pub struct Binding {
    pub ident: String,
    pub ty: String,
}

/// What a [`Binding`] holds, as contracts see it.
pub struct BindingView {
    pub ident: Seq<char>,
    pub ty: Seq<char>,
}

impl View for Binding {
    type V = BindingView;

    open spec fn view(&self) -> BindingView {
        BindingView { ident: self.ident@, ty: self.ty@ }
    }
}

/// A command: its name and return type, and its parameters in order.
#[derive(Clone, Debug)]
pub struct Cmd {
    pub proto: Binding,
    pub params: Vec<Binding>,
}

/// What a [`Cmd`] holds, as contracts see it.
pub struct CmdView {
    pub proto: BindingView,
    pub params: Seq<BindingView>,
}

impl View for Cmd {
    type V = CmdView;

    open spec fn view(&self) -> CmdView {
        CmdView { proto: self.proto@, params: self.params@.map_values(|param: Binding| param@) }
    }
}

/// What a table of aliases holds, as contracts see it: for a command's
/// name, the names that may stand in for it, in order.
pub type Aliases = Map<Seq<char>, Seq<Seq<char>>>;

/// The aliases of the commands: for a command's name, the names that may
/// stand in for it, in the order in which they are to be tried. A name has
/// at most one entry.
#[derive(Debug)]
pub struct AliasTable {
    entries: Vec<(String, Vec<String>)>,
}

/// No two entries have the same name.
spec fn distinct(entries: Seq<(String, Vec<String>)>) -> bool {
    forall|i: int, j: int|
        0 <= i < j < entries.len() ==> (#[trigger] entries[i]).0@ != (#[trigger] entries[j]).0@
}

/// Whether `ident` has an entry.
spec fn listed(entries: Seq<(String, Vec<String>)>, ident: Seq<char>) -> bool {
    exists|i: int| 0 <= i < entries.len() && (#[trigger] entries[i]).0@ == ident
}

/// Where the entry of `ident` stands.
spec fn place(entries: Seq<(String, Vec<String>)>, ident: Seq<char>) -> int {
    choose|i: int| 0 <= i < entries.len() && (#[trigger] entries[i]).0@ == ident
}

/// The map that the entries stand for.
spec fn table(entries: Seq<(String, Vec<String>)>) -> Aliases {
    Map::new(
        |ident: Seq<char>| listed(entries, ident),
        |ident: Seq<char>| views(entries[place(entries, ident)].1@),
    )
}

/// What the entry at `at` maps: its name to its aliases.
proof fn lemma_entry(entries: Seq<(String, Vec<String>)>, at: int)
    requires
        distinct(entries),
        0 <= at < entries.len(),
    ensures
        table(entries).contains_key(entries[at].0@),
        table(entries)[entries[at].0@] == views(entries[at].1@),
{
    let found = place(entries, entries[at].0@);
    assert(entries[found].0@ == entries[at].0@);
}

/// Writing the entry of `ident`, over the one it had at `at` or behind the
/// last where it had none, maps `ident` to `names` and leaves the rest.
proof fn lemma_written(
    before: Seq<(String, Vec<String>)>,
    after: Seq<(String, Vec<String>)>,
    at: int,
    ident: String,
    names: Vec<String>,
)
    requires
        distinct(before),
        0 <= at <= before.len(),
        at < before.len() ==> before[at].0@ == ident@ && after == before.update(at, (ident, names)),
        at == before.len() ==> !listed(before, ident@) && after == before.push((ident, names)),
    ensures
        distinct(after),
        table(after) == table(before).insert(ident@, views(names@)),
{
    assert forall|i: int| 0 <= i < before.len() && i != at implies #[trigger] after[i]
        == before[i] by {}
    assert(distinct(after)) by {
        assert forall|i: int, j: int| 0 <= i < j < after.len() implies (#[trigger] after[i]).0@ != (
        #[trigger] after[j]).0@ by {
            if j == at && at == before.len() {
                assert(before[i].0@ != ident@);
            }
        }
    }
    let target = table(before).insert(ident@, views(names@));
    assert forall|key: Seq<char>| #[trigger]
        table(after).contains_key(key) <==> target.contains_key(key) by {
        if listed(before, key) {
            assert(after[place(before, key)].0@ == key);
        }
        if key == ident@ {
            assert(after[at].0@ == key);
        }
        if listed(after, key) && key != ident@ {
            assert(before[place(after, key)].0@ == key);
        }
    }
    assert forall|key: Seq<char>| #[trigger]
        table(after).contains_key(key) implies table(after)[key] == target[key] by {
        let found = place(after, key);
        lemma_entry(after, found);
        if key != ident@ {
            assert(before[found].0@ == key);
            lemma_entry(before, found);
        }
    }
    assert(table(after) =~= target);
}

impl View for AliasTable {
    type V = Aliases;

    closed spec fn view(&self) -> Aliases {
        table(self.entries@)
    }
}

impl AliasTable {
    #[verifier::type_invariant]
    spec fn well_formed(self) -> bool {
        distinct(self.entries@)
    }

    /// A table without entries.
    pub fn new() -> (table: AliasTable)
        ensures
            table@ == Aliases::empty(),
    {
        let table = AliasTable { entries: Vec::new() };
        assert(table@ =~= Aliases::empty());
        table
    }

    /// The index of the entry of `ident`, if it has one.
    fn find(&self, ident: &String) -> (found: Option<usize>)
        ensures
            match found {
                Some(at) => at < self.entries@.len() && self.entries@[at as int].0@ == ident@,
                None => !listed(self.entries@, ident@),
            },
    {
        let mut i: usize = 0;
        while i < self.entries.len()
            invariant
                i <= self.entries@.len(),
                forall|k: int| 0 <= k < i ==> (#[trigger] self.entries@[k]).0@ != ident@,
            decreases self.entries@.len() - i,
        {
            if self.entries[i].0 == *ident {
                return Some(i);
            }
            i = i + 1;
        }
        None
    }

    /// Gives `ident` the aliases `names`, in place of those it had.
    pub fn insert(&mut self, ident: String, names: Vec<String>)
        ensures
            final(self)@ == old(self)@.insert(ident@, views(names@)),
    {
        proof {
            use_type_invariant(&*self);
        }
        let found = self.find(&ident);
        let mut entries: Vec<(String, Vec<String>)> = Vec::new();
        std::mem::swap(&mut entries, &mut self.entries);
        let ghost before = entries@;
        let ghost at = match found {
            Some(at) => at as int,
            None => before.len() as int,
        };
        proof {
            lemma_written(
                before,
                if at < before.len() {
                    before.update(at, (ident, names))
                } else {
                    before.push((ident, names))
                },
                at,
                ident,
                names,
            );
        }
        match found {
            Some(at) => entries.set(at, (ident, names)),
            None => entries.push((ident, names)),
        }
        std::mem::swap(&mut entries, &mut self.entries);
    }

    /// The aliases of `ident`, if it has an entry.
    pub fn get(&self, ident: &str) -> (names: Option<&Vec<String>>)
        ensures
            match names {
                Some(list) => self@.contains_key(ident@) && views(list@) == self@[ident@],
                None => !self@.contains_key(ident@),
            },
    {
        proof {
            use_type_invariant(self);
        }
        match self.find(&String::from_str(ident)) {
            Some(at) => {
                proof {
                    lemma_entry(self.entries@, at as int);
                }
                Some(&self.entries[at].1)
            },
            None => None,
        }
    }
}

/// The views of a sequence of enums.
pub open spec fn enum_views(enums: Seq<Enum>) -> Seq<EnumView> {
    enums.map_values(|enm: Enum| enm@)
}

/// The views of a sequence of commands.
pub open spec fn cmd_views(cmds: Seq<Cmd>) -> Seq<CmdView> {
    cmds.map_values(|cmd: Cmd| cmd@)
}

/// Whether one of `cmds` is named `ident`.
pub open spec fn has_ident(cmds: Seq<CmdView>, ident: Seq<char>) -> bool {
    exists|i: int| 0 <= i < cmds.len() && (#[trigger] cmds[i]).proto.ident == ident
}

/// No two of `cmds` have the same name.
pub open spec fn distinct_idents(cmds: Seq<CmdView>) -> bool {
    forall|i: int, j: int|
        0 <= i < j < cmds.len() ==> (#[trigger] cmds[i]).proto.ident != (
        #[trigger] cmds[j]).proto.ident
}

/// A registry: the API, its enums and commands in the order in which they
/// are to be emitted, and the aliases of the commands. A command's name is
/// its own: no two commands of a registry share one.
#[derive(Debug)]
pub struct Registry {
    api: Api,
    enums: Vec<Enum>,
    cmds: Vec<Cmd>,
    aliases: AliasTable,
}

/// What a [`Registry`] holds, as contracts see it.
pub struct RegistryView {
    pub api: Api,
    pub enums: Seq<EnumView>,
    pub cmds: Seq<CmdView>,
    pub aliases: Aliases,
}

impl View for Registry {
    type V = RegistryView;

    closed spec fn view(&self) -> RegistryView {
        RegistryView {
            api: self.api,
            enums: enum_views(self.enums@),
            cmds: cmd_views(self.cmds@),
            aliases: self.aliases@,
        }
    }
}

impl Registry {
    #[verifier::type_invariant]
    spec fn well_formed(self) -> bool {
        distinct_idents(cmd_views(self.cmds@))
    }

    /// A registry of `api` without enums, commands or aliases.
    pub fn new(api: Api) -> (registry: Registry)
        ensures
            registry@ == (RegistryView {
                api,
                enums: Seq::empty(),
                cmds: Seq::empty(),
                aliases: Map::empty(),
            }),
    {
        let registry = Registry {
            api,
            enums: Vec::new(),
            cmds: Vec::new(),
            aliases: AliasTable::new(),
        };
        assert(registry@.enums =~= Seq::empty());
        assert(registry@.cmds =~= Seq::empty());
        registry
    }

    /// The API that the registry describes.
    pub fn api(&self) -> (api: Api)
        ensures
            api == self@.api,
    {
        self.api
    }

    /// The enums, in the order in which they were added.
    pub fn enums(&self) -> (enums: &Vec<Enum>)
        ensures
            enum_views(enums@) == self@.enums,
    {
        &self.enums
    }

    /// The commands, in the order in which they were added. No two of them
    /// have the same name.
    pub fn cmds(&self) -> (cmds: &Vec<Cmd>)
        ensures
            cmd_views(cmds@) == self@.cmds,
            distinct_idents(self@.cmds),
    {
        proof {
            use_type_invariant(self);
        }
        &self.cmds
    }

    /// The aliases of the commands.
    pub fn aliases(&self) -> (aliases: &AliasTable)
        ensures
            aliases@ == self@.aliases,
    {
        &self.aliases
    }

    /// Adds `enm` behind the enums that are there.
    pub fn add_enum(&mut self, enm: Enum)
        ensures
            final(self)@ == (RegistryView { enums: old(self)@.enums.push(enm@), ..old(self)@ }),
    {
        proof {
            use_type_invariant(&*self);
        }
        let mut enums: Vec<Enum> = Vec::new();
        std::mem::swap(&mut enums, &mut self.enums);
        enums.push(enm);
        std::mem::swap(&mut enums, &mut self.enums);
        assert(self@.enums =~= old(self)@.enums.push(enm@));
    }

    /// Whether a command named `ident` is there.
    pub fn has_cmd(&self, ident: &str) -> (found: bool)
        ensures
            found == has_ident(self@.cmds, ident@),
    {
        let wanted = String::from_str(ident);
        let mut i: usize = 0;
        while i < self.cmds.len()
            invariant
                i <= self.cmds@.len(),
                wanted@ == ident@,
                forall|k: int|
                    0 <= k < i ==> (#[trigger] cmd_views(self.cmds@)[k]).proto.ident != ident@,
            decreases self.cmds@.len() - i,
        {
            if self.cmds[i].proto.ident == wanted {
                assert(cmd_views(self.cmds@)[i as int].proto.ident == ident@);
                return true;
            }
            i = i + 1;
        }
        false
    }

    /// Adds `cmd` behind the commands that are there, unless one of them
    /// has its name: then the registry stays as it is. Says whether the
    /// command was added.
    pub fn add_cmd(&mut self, cmd: Cmd) -> (added: bool)
        ensures
            added == !has_ident(old(self)@.cmds, cmd@.proto.ident),
            final(self)@ == if added {
                RegistryView { cmds: old(self)@.cmds.push(cmd@), ..old(self)@ }
            } else {
                old(self)@
            },
    {
        proof {
            use_type_invariant(&*self);
        }
        if self.has_cmd(cmd.proto.ident.as_str()) {
            return false;
        }
        let mut cmds: Vec<Cmd> = Vec::new();
        std::mem::swap(&mut cmds, &mut self.cmds);
        let ghost before = cmd_views(cmds@);
        cmds.push(cmd);
        proof {
            let after = cmd_views(cmds@);
            assert(after =~= before.push(cmd@));
            assert forall|i: int, j: int| 0 <= i < j < after.len() implies (
            #[trigger] after[i]).proto.ident != (#[trigger] after[j]).proto.ident by {
                if j == before.len() {
                    assert(before[i].proto.ident != cmd@.proto.ident);
                } else {
                    assert(after[i] == before[i] && after[j] == before[j]);
                }
            }
        }
        std::mem::swap(&mut cmds, &mut self.cmds);
        true
    }

    /// Gives the command `ident` the aliases `names`, in place of those it
    /// had.
    pub fn set_aliases(&mut self, ident: String, names: Vec<String>)
        ensures
            final(self)@ == (RegistryView {
                aliases: old(self)@.aliases.insert(ident@, views(names@)),
                ..old(self)@
            }),
    {
        proof {
            use_type_invariant(&*self);
        }
        let mut aliases = AliasTable::new();
        std::mem::swap(&mut aliases, &mut self.aliases);
        aliases.insert(ident, names);
        std::mem::swap(&mut aliases, &mut self.aliases);
    }
}

} // verus!
