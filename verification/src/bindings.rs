//! The table of slots: one for each command of a registry, unresolved until
//! a loader fills them, and read by name.

use vstd::prelude::*;
use vstd::string::*;

use crate::glgen::{gen_symbol_name, native_name};
use crate::registry::{cmd_views, Aliases, Api, CmdView, Registry, RegistryView};
use crate::loader::{deterministic, total, Loader};
use crate::resolve::{
    asked_by, candidates, law_resolve_again, metaloadfn, resolve, resolves, resolves_asking,
    search_outcome, slot_after, FnPtr, Lookup, Slot, PMISSING_FN_EXIT,
};
use crate::text::views;

verus! {

/// The prefix of the symbols that libepoxy exports.
pub const EPOXY: &'static str = "epoxy_";

/// What is reported when a function is called that could not be loaded,
/// in front of the function's name.
pub const NOT_LOADED: &'static str = "function was not loaded: ";

/// The symbol under which libepoxy exports the command `ident`: the one a
/// loader is asked for first.
pub open spec fn primary_symbol(api: Api, ident: Seq<char>) -> Seq<char> {
    EPOXY@ + native_name(api, ident)
}

/// The native symbols of `names`.
pub open spec fn native_names(api: Api, names: Seq<Seq<char>>) -> Seq<Seq<char>> {
    names.map_values(|name: Seq<char>| native_name(api, name))
}

/// The symbols a loader is asked for when the primary symbol of `ident` is
/// missing: the native symbols of its aliases, in the order of the table;
/// none where it has no entry there.
pub open spec fn fallback_symbols(api: Api, aliases: Aliases, ident: Seq<char>) -> Seq<Seq<char>> {
    if aliases.contains_key(ident) {
        native_names(api, aliases[ident])
    } else {
        Seq::empty()
    }
}

/// The symbol under which libepoxy exports the command `ident`.
pub fn symbol_name(api: Api, ident: &str) -> (symbol: String)
    ensures
        symbol@ == primary_symbol(api, ident@),
{
    let mut symbol = String::from_str(EPOXY);
    symbol.append(gen_symbol_name(api, ident).as_str());
    symbol
}

/// The fallback symbols of the command `ident`, in the order in which they
/// are to be tried.
pub fn fallback_symbol_names(registry: &Registry, ident: &str) -> (symbols: Vec<String>)
    ensures
        views(symbols@) == fallback_symbols(registry@.api, registry@.aliases, ident@),
{
    let api = registry.api();
    let mut symbols: Vec<String> = Vec::new();
    match registry.aliases().get(ident) {
        Some(names) => {
            let ghost natives = native_names(api, views(names@));
            let mut i: usize = 0;
            while i < names.len()
                invariant
                    i <= names@.len(),
                    natives == native_names(api, views(names@)),
                    views(symbols@) == natives.take(i as int),
                decreases names@.len() - i,
            {
                let symbol = gen_symbol_name(api, names[i].as_str());
                let ghost text = symbol@;
                symbols.push(symbol);
                proof {
                    assert(natives[i as int] == text);
                    assert(views(symbols@) =~= natives.take(i as int).push(text));
                    assert(natives.take(i + 1) =~= natives.take(i as int).push(natives[i as int]));
                }
                i = i + 1;
            }
            proof {
                assert(natives.take(natives.len() as int) == natives);
            }
        },
        None => {
            assert(views(symbols@) =~= Seq::<Seq<char>>::empty());
        },
    }
    symbols
}

/// The text that reports a call of the function `name` while it is not
/// loaded.
pub fn missing_fn_message(name: &str) -> (message: String)
    ensures
        message@ == NOT_LOADED@ + name@,
{
    let mut message = String::from_str(NOT_LOADED);
    message.append(name);
    message
}

/// Why a command has no entry point to call.
#[derive(Clone, Copy, Debug, PartialEq, Eq, Structural)]
pub enum CallError {
    /// The table has no command of that name.
    UnknownCommand,
    /// The command's slot holds the sentinel: nothing resolved it.
    NotLoaded,
}

#[derive(Debug)]
struct Entry {
    name: String,
    symbol: String,
    fallbacks: Vec<String>,
    slot: FnPtr,
}

/// One command of the table, as contracts see it: its name, the symbol it
/// is looked up by, its fallback symbols in order, and its slot.
pub struct EntryView {
    pub name: Seq<char>,
    pub symbol: Seq<char>,
    pub fallbacks: Seq<Seq<char>>,
    pub slot: Slot,
}

impl View for Entry {
    type V = EntryView;

    closed spec fn view(&self) -> EntryView {
        EntryView {
            name: self.name@,
            symbol: self.symbol@,
            fallbacks: views(self.fallbacks@),
            slot: self.slot@,
        }
    }
}

/// The table before anything is loaded: a command for each of the
/// registry's, in the registry's order, each with the sentinel in its slot.
pub open spec fn unresolved(registry: RegistryView) -> Seq<EntryView> {
    registry.cmds.map_values(
        |cmd: CmdView|
            EntryView {
                name: cmd.proto.ident,
                symbol: primary_symbol(registry.api, cmd.proto.ident),
                fallbacks: fallback_symbols(registry.api, registry.aliases, cmd.proto.ident),
                slot: Slot { address: PMISSING_FN_EXIT, loaded: false },
            },
    )
}

/// The name an entry is found by: the symbol of its command, or the
/// command's own name.
pub open spec fn key(entry: EntryView, by_symbol: bool) -> Seq<char> {
    if by_symbol {
        entry.symbol
    } else {
        entry.name
    }
}

/// `index` is where the first entry with the key `wanted` stands.
pub open spec fn first_at(
    entries: Seq<EntryView>,
    by_symbol: bool,
    wanted: Seq<char>,
    index: int,
) -> bool {
    &&& 0 <= index < entries.len()
    &&& key(entries[index], by_symbol) == wanted
    &&& forall|j: int| 0 <= j < index ==> key(#[trigger] entries[j], by_symbol) != wanted
}

/// Where the first entry with the key `wanted` stands, if there is one.
pub open spec fn find(entries: Seq<EntryView>, by_symbol: bool, wanted: Seq<char>) -> Option<int> {
    if exists|index: int| first_at(entries, by_symbol, wanted, index) {
        Some(choose|index: int| first_at(entries, by_symbol, wanted, index))
    } else {
        None
    }
}

/// Where the first command named `name` stands, if there is one.
pub open spec fn position(entries: Seq<EntryView>, name: Seq<char>) -> Option<int> {
    find(entries, false, name)
}

/// The first entry with a key is found where it stands.
pub proof fn lemma_found_at(entries: Seq<EntryView>, by_symbol: bool, wanted: Seq<char>, index: int)
    requires
        first_at(entries, by_symbol, wanted, index),
    ensures
        find(entries, by_symbol, wanted) == Some(index),
{
    let chosen = choose|other: int| first_at(entries, by_symbol, wanted, other);
    assert(key(entries[chosen], by_symbol) == wanted);
    assert(key(entries[index], by_symbol) == wanted);
}

/// Two tables hold the same commands in the same order, whatever their
/// slots hold.
pub open spec fn same_commands(one: Seq<EntryView>, other: Seq<EntryView>) -> bool {
    &&& one.len() == other.len()
    &&& forall|i: int|
        0 <= i < one.len() ==> {
            &&& (#[trigger] one[i]).name == other[i].name
            &&& one[i].symbol == other[i].symbol
            &&& one[i].fallbacks == other[i].fallbacks
        }
}

/// `after` is what loading every command of `before` through `loadfn` may
/// leave: the same commands in the same order, each with the slot that
/// resolving it gives, whatever its slot held.
pub open spec fn loaded_with<F: Fn(&str) -> usize>(
    before: Seq<EntryView>,
    loadfn: &F,
    after: Seq<EntryView>,
) -> bool {
    &&& same_commands(before, after)
    &&& forall|i: int|
        0 <= i < before.len() ==> resolves(
            loadfn,
            (#[trigger] before[i]).symbol,
            before[i].fallbacks,
            after[i].slot,
        )
}

/// `after` is what loading every command of `before` leaves where the
/// search for command `i` ended with `lookups[i]`: the same commands in the
/// same order, each with the slot for what its search found.
pub open spec fn loaded_as<F: Fn(&str) -> usize>(
    before: Seq<EntryView>,
    loadfn: &F,
    lookups: Seq<Lookup>,
    after: Seq<EntryView>,
) -> bool {
    &&& same_commands(before, after)
    &&& lookups.len() == before.len()
    &&& forall|i: int|
        0 <= i < before.len() ==> {
            &&& search_outcome(
                loadfn,
                candidates((#[trigger] before[i]).symbol, before[i].fallbacks),
                lookups[i],
            )
            &&& after[i].slot == slot_after(lookups[i].address)
        }
}

/// The names asked for while the first `count` commands of `entries` were
/// loaded, the search for command `i` having ended with `lookups[i]`: for
/// one command after the other, in the order of the table, the names its
/// search asked for.
pub open spec fn asked_loading(entries: Seq<EntryView>, lookups: Seq<Lookup>, count: int) -> Seq<
    Seq<char>,
>
    decreases count,
{
    if count <= 0 {
        Seq::empty()
    } else {
        asked_loading(entries, lookups, count - 1) + asked_by(
            candidates(entries[count - 1].symbol, entries[count - 1].fallbacks),
            lookups[count - 1],
        )
    }
}

/// What was asked for while the first commands were loaded does not depend
/// on how the later searches ended, nor on what the slots hold.
proof fn lemma_asked_loading_agrees(
    one: Seq<EntryView>,
    other: Seq<EntryView>,
    first: Seq<Lookup>,
    second: Seq<Lookup>,
    count: int,
)
    requires
        same_commands(one, other),
        count <= one.len(),
        forall|k: int| 0 <= k < count ==> first[k] == second[k],
    ensures
        asked_loading(one, first, count) == asked_loading(other, second, count),
    decreases count,
{
    if count > 0 {
        lemma_asked_loading_agrees(one, other, first, second, count - 1);
        assert(one[count - 1].symbol == other[count - 1].symbol);
    }
}

/// The slots of the commands of one set of bindings.
#[derive(Debug)]
pub struct Bindings {
    entries: Vec<Entry>,
}

spec fn entry_views(entries: Seq<Entry>) -> Seq<EntryView> {
    entries.map_values(|entry: Entry| entry@)
}

impl View for Bindings {
    type V = Seq<EntryView>;

    closed spec fn view(&self) -> Seq<EntryView> {
        entry_views(self.entries@)
    }
}

impl Bindings {
    /// The table for the commands of `registry`, with every slot unresolved.
    pub fn new(registry: &Registry) -> (table: Bindings)
        ensures
            table@ == unresolved(registry@),
    {
        let ghost target = unresolved(registry@);
        let cmds = registry.cmds();
        let mut entries: Vec<Entry> = Vec::new();
        let mut i: usize = 0;
        while i < cmds.len()
            invariant
                i <= cmds@.len(),
                cmd_views(cmds@) == registry@.cmds,
                target == unresolved(registry@),
                entry_views(entries@) == target.take(i as int),
            decreases cmds@.len() - i,
        {
            let ident = cmds[i].proto.ident.as_str();
            let entry = Entry {
                name: cmds[i].proto.ident.clone(),
                symbol: symbol_name(registry.api(), ident),
                fallbacks: fallback_symbol_names(registry, ident),
                slot: FnPtr::new(0),
            };
            let ghost added = entry@;
            let ghost before = entry_views(entries@);
            entries.push(entry);
            proof {
                assert(added == target[i as int]);
                assert(entry_views(entries@) =~= before.push(added));
                assert(target.take(i + 1) =~= target.take(i as int).push(target[i as int]));
            }
            i = i + 1;
        }
        proof {
            assert(target.take(target.len() as int) == target);
        }
        Bindings { entries }
    }

    /// The number of commands.
    pub fn len(&self) -> (count: usize)
        ensures
            count == self@.len(),
    {
        self.entries.len()
    }

    fn search(&self, by_symbol: bool, wanted: &String) -> (found: Option<usize>)
        ensures
            match found {
                Some(index) => index < self.entries@.len() && find(self@, by_symbol, wanted@)
                    == Some(index as int),
                None => find(self@, by_symbol, wanted@) is None,
            },
    {
        let mut i: usize = 0;
        while i < self.entries.len()
            invariant
                i <= self.entries@.len(),
                forall|j: int| 0 <= j < i ==> key(#[trigger] self@[j], by_symbol) != wanted@,
            decreases self.entries@.len() - i,
        {
            let here = if by_symbol {
                self.entries[i].symbol == *wanted
            } else {
                self.entries[i].name == *wanted
            };
            if here {
                proof {
                    lemma_found_at(self@, by_symbol, wanted@, i as int);
                }
                return Some(i);
            }
            i = i + 1;
        }
        None
    }

    /// Where the first command named `name` stands, if there is one.
    pub fn position(&self, name: &str) -> (found: Option<usize>)
        ensures
            match found {
                Some(index) => position(self@, name@) == Some(index as int),
                None => position(self@, name@) is None,
            },
    {
        self.search(false, &String::from_str(name))
    }

    /// The slot of the command `name`, if there is such a command.
    pub fn slot(&self, name: &str) -> (found: Option<FnPtr>)
        ensures
            match position(self@, name@) {
                Some(index) => found matches Some(slot) && slot@ == self@[index].slot,
                None => found is None,
            },
    {
        match self.position(name) {
            Some(index) => Some(self.entries[index].slot),
            None => None,
        }
    }

    /// Whether the command `name` is there and its slot holds a resolved
    /// entry point.
    pub fn is_loaded(&self, name: &str) -> (loaded: bool)
        ensures
            loaded == match position(self@, name@) {
                Some(index) => self@[index].slot.loaded,
                None => false,
            },
    {
        match self.position(name) {
            Some(index) => self.entries[index].slot.is_loaded(),
            None => false,
        }
    }

    /// The address to call the command `name` through: the one in its slot
    /// if the slot is loaded. A command that is not loaded has none, and
    /// neither has a name that is not a command's.
    pub fn entry_point(&self, name: &str) -> (result: Result<usize, CallError>)
        ensures
            result == match position(self@, name@) {
                Some(index) => if self@[index].slot.loaded {
                    Ok::<usize, CallError>(self@[index].slot.address)
                } else {
                    Err::<usize, CallError>(CallError::NotLoaded)
                },
                None => Err::<usize, CallError>(CallError::UnknownCommand),
            },
    {
        match self.position(name) {
            Some(index) => {
                let slot = self.entries[index].slot;
                if slot.is_loaded() {
                    Ok(slot.pf())
                } else {
                    Err(CallError::NotLoaded)
                }
            },
            None => Err(CallError::UnknownCommand),
        }
    }

    /// The address that stands for the command with the native symbol
    /// `symbol`: what its slot holds, which is never null; null for a
    /// symbol of no command.
    pub fn get_proc_addr(&self, symbol: &str) -> (address: usize)
        ensures
            address == match find(self@, true, EPOXY@ + symbol@) {
                Some(index) => self@[index].slot.address,
                None => 0,
            },
            find(self@, true, EPOXY@ + symbol@) is Some ==> address != 0,
    {
        let mut wanted = String::from_str(EPOXY);
        wanted.append(symbol);
        match self.search(true, &wanted) {
            Some(index) => self.entries[index].slot.pf(),
            None => 0,
        }
    }

    /// Resolves the command `name` through `loader` and puts the outcome in
    /// its slot. Says whether there is such a command; without one, nothing
    /// changes and the loader is not asked.
    pub fn load_command_with<F: Fn(&str) -> usize>(
        &mut self,
        name: &str,
        loader: &mut Loader<F>,
    ) -> (known: bool)
        requires
            total(&old(loader).function()),
        ensures
            final(loader).function() == old(loader).function(),
            match position(old(self)@, name@) {
                Some(index) => {
                    &&& known
                    &&& final(self)@ == old(self)@.update(
                        index,
                        EntryView { slot: final(self)@[index].slot, ..old(self)@[index] },
                    )
                    &&& resolves_asking(
                        &old(loader).function(),
                        old(self)@[index].symbol,
                        old(self)@[index].fallbacks,
                        final(self)@[index].slot,
                        old(loader).asked(),
                        final(loader).asked(),
                    )
                },
                None => {
                    &&& !known
                    &&& final(self)@ == old(self)@
                    &&& final(loader).asked() == old(loader).asked()
                },
            },
    {
        match self.position(name) {
            Some(index) => {
                let slot = resolve(
                    loader,
                    self.entries[index].symbol.as_str(),
                    self.entries[index].fallbacks.as_slice(),
                );
                self.entries[index].slot = slot;
                assert(self@ =~= old(self)@.update(
                    index as int,
                    EntryView { slot: self@[index as int].slot, ..old(self)@[index as int] },
                ));
                true
            },
            None => false,
        }
    }

    /// Resolves every command through `loader`, in the order of the table,
    /// and puts each outcome in the command's slot. The loader is asked for
    /// what the search of each command asks for, command after command,
    /// and for nothing else.
    pub fn load_with<F: Fn(&str) -> usize>(&mut self, loader: &mut Loader<F>)
        requires
            total(&old(loader).function()),
        ensures
            final(loader).function() == old(loader).function(),
            loaded_with(old(self)@, &old(loader).function(), final(self)@),
            exists|lookups: Seq<Lookup>|
                {
                    &&& #[trigger] loaded_as(
                        old(self)@,
                        &old(loader).function(),
                        lookups,
                        final(self)@,
                    )
                    &&& final(loader).asked() == old(loader).asked() + asked_loading(
                        old(self)@,
                        lookups,
                        old(self)@.len() as int,
                    )
                },
    {
        let ghost mut lookups: Seq<Lookup> = Seq::empty();
        let mut i: usize = 0;
        assert(loader.asked() =~= old(loader).asked() + asked_loading(old(self)@, lookups, 0));
        while i < self.entries.len()
            invariant
                loader.function() == old(loader).function(),
                total(&loader.function()),
                i <= self.entries@.len(),
                same_commands(old(self)@, self@),
                lookups.len() == i,
                forall|k: int|
                    0 <= k < i ==> {
                        &&& search_outcome(
                            &loader.function(),
                            candidates((#[trigger] old(self)@[k]).symbol, old(self)@[k].fallbacks),
                            lookups[k],
                        )
                        &&& self@[k].slot == slot_after(lookups[k].address)
                    },
                loader.asked() == old(loader).asked() + asked_loading(
                    old(self)@,
                    lookups,
                    i as int,
                ),
            decreases self.entries@.len() - i,
        {
            let ghost before = self@;
            let ghost sofar = lookups;
            let found = metaloadfn(
                loader,
                self.entries[i].symbol.as_str(),
                self.entries[i].fallbacks.as_slice(),
            );
            let slot = FnPtr::new(found.address);
            self.entries[i].slot = slot;
            proof {
                lookups = lookups.push(found);
                assert(self@ =~= before.update(
                    i as int,
                    EntryView { slot: slot@, ..before[i as int] },
                ));
                assert(before[i as int].symbol == old(self)@[i as int].symbol);
                lemma_asked_loading_agrees(old(self)@, old(self)@, sofar, lookups, i as int);
                assert(loader.asked() =~= old(loader).asked() + asked_loading(
                    old(self)@,
                    lookups,
                    i + 1,
                ));
            }
            i = i + 1;
        }
        proof {
            assert(loaded_as(old(self)@, &old(loader).function(), lookups, self@));
            assert forall|k: int| 0 <= k < self@.len() implies resolves(
                &old(loader).function(),
                (#[trigger] old(self)@[k]).symbol,
                old(self)@[k].fallbacks,
                self@[k].slot,
            ) by {
                assert(search_outcome(
                    &old(loader).function(),
                    candidates(old(self)@[k].symbol, old(self)@[k].fallbacks),
                    lookups[k],
                ));
            }
        }
    }
}

/// Under a loader that never gives two answers for one name, loading twice
/// in a row leaves the table as loading once left it.
pub proof fn law_load_with_idempotent<F: Fn(&str) -> usize>(
    loadfn: &F,
    start: Seq<EntryView>,
    once: Seq<EntryView>,
    twice: Seq<EntryView>,
)
    requires
        deterministic(loadfn),
        loaded_with(start, loadfn, once),
        loaded_with(once, loadfn, twice),
    ensures
        once == twice,
{
    assert forall|i: int| 0 <= i < once.len() implies once[i] == twice[i] by {
        assert(start[i].symbol == once[i].symbol && once[i].name == twice[i].name);
        law_resolve_again(loadfn, start[i].symbol, start[i].fallbacks, once[i].slot, twice[i].slot);
    }
    assert(once =~= twice);
}

/// What a load leaves does not depend on what the slots held: from two
/// tables with the same commands, one load may leave the same table.
pub proof fn law_load_with_overwrites<F: Fn(&str) -> usize>(
    loadfn: &F,
    one: Seq<EntryView>,
    other: Seq<EntryView>,
    after: Seq<EntryView>,
)
    requires
        same_commands(one, other),
        loaded_with(one, loadfn, after),
    ensures
        loaded_with(other, loadfn, after),
{
    assert forall|i: int| 0 <= i < other.len() implies {
        &&& (#[trigger] other[i]).name == after[i].name
        &&& other[i].symbol == after[i].symbol
        &&& other[i].fallbacks == after[i].fallbacks
        &&& resolves(loadfn, other[i].symbol, other[i].fallbacks, after[i].slot)
    } by {
        assert(one[i].name == other[i].name);
    }
}

} // verus!
