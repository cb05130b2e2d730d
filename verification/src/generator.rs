//! The generator: for a registry, the text of the bindings that call
//! through libepoxy's dispatch table.

use vstd::prelude::*;
use vstd::string::*;

use crate::bindings::NOT_LOADED;
use crate::glgen::{
    enum_item, gen_enum_item, gen_parameters, gen_symbol_name, gen_types, native_name, parameters,
    type_aliases,
};
use crate::registry::{
    cmd_views, enum_views, AliasTable, Aliases, Api, Cmd, CmdView, EnumView, Registry,
    RegistryView,
};
use crate::templates::{
    ARM_HEAD, ARM_MID, ARM_TAIL, FALLBACKS_NOTE, FNPTR_STRUCT_DEF, FN_CALL, FN_CAST, FN_CHECK,
    FN_HEAD, FN_REPORT, FN_SLOT, FN_TAIL, GET_PROC_ADDR_CLOSE, GET_PROC_ADDR_OPEN, HEADER,
    LOAD_CALL, LOAD_FN_CLOSE, LOAD_FN_OPEN, METALOADFN, MISSING_FN_HEAD, MISSING_FN_TAIL,
    MOD_FALLBACKS, MOD_HEAD, MOD_IS_LOADED, MOD_LOAD_WITH, MOD_RESOLVE, MOD_TAIL, PTRS_CLOSE,
    PTRS_OPEN, PTR_HEAD, PTR_TAIL, TYPES_CLOSE, TYPES_OPEN,
};
use crate::text::{join, joined, lemma_flatten_step, views};

verus! {

/// The type that commands without a result are declared with.
pub const C_VOID: &'static str = "__gl_imports::raw::c_void";

/// The module path in front of the types of the enums.
pub const TYPES_PREFIX: &'static str = "types::";

/// Why no text could be made: a part that was to go into it is missing.
/// [`wrap_type_aliases`] and [`append_enum_line`] give these for a part that
/// is handed to them as missing; the functions that make the parts
/// themselves always have them.
#[derive(Clone, Copy, Debug, PartialEq, Eq, Structural)]
pub enum EmitError {
    /// The type aliases of the API are missing.
    TypeAliases,
    /// The line of an enum is missing.
    EnumItem,
}

/// Creates a `__gl_imports` module which contains all the external symbols
/// that the bindings need.
pub fn write_header() -> (text: String)
    ensures
        text@ == HEADER@,
{
    HEADER.to_string()
}

/// Creates the `metaloadfn` function for fallbacks.
pub fn write_metaloadfn() -> (text: String)
    ensures
        text@ == METALOADFN@,
{
    METALOADFN.to_string()
}

/// The `types` module around the type aliases `aliases`.
pub open spec fn types_module(aliases: Seq<char>) -> Seq<char> {
    TYPES_OPEN@ + aliases + TYPES_CLOSE@
}

/// Puts the `types` module around the type aliases, if they could be had.
pub fn wrap_type_aliases(aliases: Option<String>) -> (result: Result<String, EmitError>)
    ensures
        match aliases {
            Some(list) => result matches Ok(text) && text@ == types_module(list@),
            None => result == Err::<String, EmitError>(EmitError::TypeAliases),
        },
{
    match aliases {
        Some(list) => {
            let mut text = String::from_str(TYPES_OPEN);
            text.append(list.as_str());
            text.append(TYPES_CLOSE);
            Ok(text)
        },
        None => Err(EmitError::TypeAliases),
    }
}

/// Creates a `types` module which contains all the type aliases of the
/// registry's API.
pub fn write_type_aliases(registry: &Registry) -> (result: Result<String, EmitError>)
    ensures
        result matches Ok(text) && text@ == types_module(type_aliases(registry@.api)),
{
    wrap_type_aliases(gen_types(registry.api()))
}

/// The lines of the enums, one for each.
pub open spec fn enum_lines(enums: Seq<EnumView>) -> Seq<Seq<char>> {
    enums.map_values(|enm: EnumView| enum_item(enm, TYPES_PREFIX@))
}

/// Adds the line of one enum to `text`, if the line could be had.
pub fn append_enum_line(text: String, line: Option<String>) -> (result: Result<String, EmitError>)
    ensures
        match line {
            Some(item) => result matches Ok(longer) && longer@ == text@ + item@,
            None => result == Err::<String, EmitError>(EmitError::EnumItem),
        },
{
    match line {
        Some(item) => Ok(text.concat(item.as_str())),
        None => Err(EmitError::EnumItem),
    }
}

/// Creates all the enum constants at the root of the bindings.
pub fn write_enums(registry: &Registry) -> (result: Result<String, EmitError>)
    ensures
        result matches Ok(text) && text@ == enum_lines(registry@.enums).flatten(),
{
    let enums = registry.enums();
    let ghost lines = enum_lines(registry@.enums);
    let mut text = String::new();
    let mut i: usize = 0;
    while i < enums.len()
        invariant
            i <= enums@.len(),
            enum_views(enums@) == registry@.enums,
            lines == enum_lines(registry@.enums),
            text@ == lines.take(i as int).flatten(),
        decreases enums@.len() - i,
    {
        let line = gen_enum_item(&enums[i], TYPES_PREFIX);
        match append_enum_line(text, line) {
            Ok(longer) => {
                text = longer;
            },
            Err(error) => {
                return Err(error);
            },
        }
        proof {
            lemma_flatten_step(lines, i as int);
        }
        i = i + 1;
    }
    proof {
        assert(lines.take(lines.len() as int) == lines);
    }
    Ok(text)
}

/// The type a command's function returns: `()` in place of the C `void`.
pub open spec fn return_type(cmd: CmdView) -> Seq<char> {
    if cmd.proto.ty == C_VOID@ {
        "()"@
    } else {
        cmd.proto.ty
    }
}

/// Turns the return type of a command into a Rust type: the type itself,
/// or `()` where it is the C `void`.
pub fn gen_return_type(cmd: &Cmd) -> (ty: String)
    ensures
        ty@ == return_type(cmd@),
{
    if cmd.proto.ty == String::from_str(C_VOID) {
        String::from_str("()")
    } else {
        cmd.proto.ty.clone()
    }
}

/// The line that names the fallbacks of `ident`, where it has an entry
/// among the aliases.
pub open spec fn fallbacks_note(aliases: Aliases, ident: Seq<char>) -> Seq<char> {
    if aliases.contains_key(ident) {
        FALLBACKS_NOTE@ + joined(aliases[ident], ", "@) + "\n"@
    } else {
        Seq::<char>::empty()
    }
}

/// The function of one command. Where the command's slot is not loaded it
/// reports the command's name and ends the process; else it calls through
/// the slot with the command's own parameters and return type.
pub open spec fn command_fn(cmd: CmdView, aliases: Aliases) -> Seq<char> {
    let name = cmd.proto.ident;
    let params = joined(parameters(cmd, true, true), ", "@);
    let typed_params = joined(parameters(cmd, false, true), ", "@);
    let idents = joined(parameters(cmd, true, false), ", "@);
    let return_suffix = return_type(cmd);
    fallbacks_note(aliases, name) + FN_HEAD@ + name + "("@ + params + ") -> "@ + return_suffix
        + FN_CHECK@ + name + FN_REPORT@ + name + FN_CAST@ + typed_params + ") -> "@
        + return_suffix + FN_SLOT@ + name + FN_CALL@ + idents + FN_TAIL@
}

/// The functions of the commands, one for each.
pub open spec fn command_fns(registry: RegistryView) -> Seq<Seq<char>> {
    registry.cmds.map_values(|cmd: CmdView| command_fn(cmd, registry.aliases))
}

fn push_command_fn(text: &mut String, cmd: &Cmd, aliases: &AliasTable)
    ensures
        final(text)@ == old(text)@ + command_fn(cmd@, aliases@),
{
    let name = cmd.proto.ident.as_str();
    match aliases.get(name) {
        Some(names) => {
            text.append(FALLBACKS_NOTE);
            text.append(join(names, ", ").as_str());
            text.append("\n");
        },
        None => {},
    }
    let params = join(&gen_parameters(cmd, true, true), ", ");
    let typed_params = join(&gen_parameters(cmd, false, true), ", ");
    let idents = join(&gen_parameters(cmd, true, false), ", ");
    let return_suffix = gen_return_type(cmd);
    text.append(FN_HEAD);
    text.append(name);
    text.append("(");
    text.append(params.as_str());
    text.append(") -> ");
    text.append(return_suffix.as_str());
    text.append(FN_CHECK);
    text.append(name);
    text.append(FN_REPORT);
    text.append(name);
    text.append(FN_CAST);
    text.append(typed_params.as_str());
    text.append(") -> ");
    text.append(return_suffix.as_str());
    text.append(FN_SLOT);
    text.append(name);
    text.append(FN_CALL);
    text.append(idents.as_str());
    text.append(FN_TAIL);
    assert(text@ =~= old(text)@ + command_fn(cmd@, aliases@));
}

/// Creates the functions corresponding to the commands. Each calls the
/// function pointer stored in the command's slot of the `storage` module.
pub fn write_fns(registry: &Registry) -> (text: String)
    ensures
        text@ == command_fns(registry@).flatten(),
{
    let ghost pieces = command_fns(registry@);
    let mut text = String::new();
    let cmds = registry.cmds();
    let mut i: usize = 0;
    while i < cmds.len()
        invariant
            i <= cmds@.len(),
            cmd_views(cmds@) == registry@.cmds,
            pieces == command_fns(registry@),
            text@ == pieces.take(i as int).flatten(),
        decreases cmds@.len() - i,
    {
        push_command_fn(&mut text, &cmds[i], registry.aliases());
        proof {
            lemma_flatten_step(pieces, i as int);
        }
        i = i + 1;
    }
    proof {
        assert(pieces.take(pieces.len() as int) == pieces);
    }
    text
}

/// Creates a `FnPtr` structure which contains the store for a single
/// binding.
pub fn write_fnptr_struct_def() -> (text: String)
    ensures
        text@ == FNPTR_STRUCT_DEF@,
{
    FNPTR_STRUCT_DEF.to_string()
}

/// The slot of one command.
pub open spec fn slot_item(cmd: CmdView) -> Seq<char> {
    PTR_HEAD@ + cmd.proto.ident + PTR_TAIL@
}

/// The slots of the commands, one for each.
pub open spec fn slot_items(cmds: Seq<CmdView>) -> Seq<Seq<char>> {
    cmds.map_values(|cmd: CmdView| slot_item(cmd))
}

/// The `storage` module: a slot for each command.
pub open spec fn storage_module(cmds: Seq<CmdView>) -> Seq<char> {
    PTRS_OPEN@ + slot_items(cmds).flatten() + PTRS_CLOSE@
}

/// Creates a `storage` module which contains a static `FnPtr` per command
/// in the registry.
pub fn write_ptrs(registry: &Registry) -> (text: String)
    ensures
        text@ == storage_module(registry@.cmds),
{
    let ghost pieces = slot_items(registry@.cmds);
    let mut text = String::from_str(PTRS_OPEN);
    let cmds = registry.cmds();
    let mut i: usize = 0;
    while i < cmds.len()
        invariant
            i <= cmds@.len(),
            cmd_views(cmds@) == registry@.cmds,
            pieces == slot_items(registry@.cmds),
            text@ == PTRS_OPEN@ + pieces.take(i as int).flatten(),
        decreases cmds@.len() - i,
    {
        text.append(PTR_HEAD);
        text.append(cmds[i].proto.ident.as_str());
        text.append(PTR_TAIL);
        proof {
            lemma_flatten_step(pieces, i as int);
            assert(text@ =~= PTRS_OPEN@ + pieces.take(i + 1).flatten());
        }
        i = i + 1;
    }
    proof {
        assert(pieces.take(pieces.len() as int) == pieces);
    }
    text.append(PTRS_CLOSE);
    text
}

/// The native symbols of `names`, each between double quotes.
pub open spec fn quoted_symbols(api: Api, names: Seq<Seq<char>>) -> Seq<Seq<char>> {
    names.map_values(|name: Seq<char>| "\""@ + native_name(api, name) + "\""@)
}

/// The slice of fallback symbols that a command's `load_with` hands on:
/// empty where the command has no entry among the aliases.
pub open spec fn fallbacks_slice(api: Api, aliases: Aliases, ident: Seq<char>) -> Seq<char> {
    if aliases.contains_key(ident) {
        "&["@ + joined(quoted_symbols(api, aliases[ident]), ", "@) + "]"@
    } else {
        "&[]"@
    }
}

fn gen_fallbacks_slice(api: Api, aliases: &AliasTable, ident: &str) -> (text: String)
    ensures
        text@ == fallbacks_slice(api, aliases@, ident@),
{
    match aliases.get(ident) {
        Some(names) => {
            let ghost quoted = quoted_symbols(api, views(names@));
            let mut symbols: Vec<String> = Vec::new();
            let mut i: usize = 0;
            while i < names.len()
                invariant
                    i <= names@.len(),
                    quoted == quoted_symbols(api, views(names@)),
                    views(symbols@) == quoted.take(i as int),
                decreases names@.len() - i,
            {
                let mut symbol = String::from_str("\"");
                symbol.append(gen_symbol_name(api, names[i].as_str()).as_str());
                symbol.append("\"");
                let ghost text = symbol@;
                symbols.push(symbol);
                proof {
                    assert(quoted[i as int] == text);
                    assert(views(symbols@) =~= quoted.take(i as int).push(text));
                    assert(quoted.take(i + 1) =~= quoted.take(i as int).push(quoted[i as int]));
                }
                i = i + 1;
            }
            proof {
                assert(quoted.take(quoted.len() as int) == quoted);
            }
            let mut text = String::from_str("&[");
            text.append(join(&symbols, ", ").as_str());
            text.append("]");
            text
        },
        None => String::from_str("&[]"),
    }
}

/// The module of one command, with its `is_loaded` and its `load_with`.
pub open spec fn command_mod(cmd: CmdView, registry: RegistryView) -> Seq<char> {
    let fnname = cmd.proto.ident;
    let symbol = native_name(registry.api, fnname);
    let fallbacks = fallbacks_slice(registry.api, registry.aliases, fnname);
    MOD_HEAD@ + fnname + MOD_IS_LOADED@ + fnname + MOD_LOAD_WITH@ + fnname + MOD_RESOLVE@ + symbol
        + MOD_FALLBACKS@ + fallbacks + MOD_TAIL@
}

/// The modules of the commands, one for each.
pub open spec fn command_mods(registry: RegistryView) -> Seq<Seq<char>> {
    registry.cmds.map_values(|cmd: CmdView| command_mod(cmd, registry))
}

fn push_command_mod(text: &mut String, cmd: &Cmd, registry: &Registry)
    ensures
        final(text)@ == old(text)@ + command_mod(cmd@, registry@),
{
    let fnname = cmd.proto.ident.as_str();
    let fallbacks = gen_fallbacks_slice(registry.api(), registry.aliases(), fnname);
    let symbol = gen_symbol_name(registry.api(), fnname);
    text.append(MOD_HEAD);
    text.append(fnname);
    text.append(MOD_IS_LOADED);
    text.append(fnname);
    text.append(MOD_LOAD_WITH);
    text.append(fnname);
    text.append(MOD_RESOLVE);
    text.append(symbol.as_str());
    text.append(MOD_FALLBACKS);
    text.append(fallbacks.as_str());
    text.append(MOD_TAIL);
    assert(text@ =~= old(text)@ + command_mod(cmd@, registry@));
}

/// Creates one module for each command. Each module contains `is_loaded`
/// and `load_with`, which work on the command's slot of the `storage`
/// module.
pub fn write_fn_mods(registry: &Registry) -> (text: String)
    ensures
        text@ == command_mods(registry@).flatten(),
{
    let ghost pieces = command_mods(registry@);
    let mut text = String::new();
    let cmds = registry.cmds();
    let mut i: usize = 0;
    while i < cmds.len()
        invariant
            i <= cmds@.len(),
            cmd_views(cmds@) == registry@.cmds,
            pieces == command_mods(registry@),
            text@ == pieces.take(i as int).flatten(),
        decreases cmds@.len() - i,
    {
        push_command_mod(&mut text, &cmds[i], registry);
        proof {
            lemma_flatten_step(pieces, i as int);
        }
        i = i + 1;
    }
    proof {
        assert(pieces.take(pieces.len() as int) == pieces);
    }
    text
}

/// The functions for what could not be loaded: `missing_fn`, which reports
/// the name it is given behind the words of [`NOT_LOADED`] and ends the
/// process, and `missing_fn_exit`, which the slots point to.
pub open spec fn error_fns() -> Seq<char> {
    MISSING_FN_HEAD@ + NOT_LOADED@ + MISSING_FN_TAIL@
}

/// Creates the `missing_fn` function, which a command's function calls
/// with its own name where it is not loaded, and the `missing_fn_exit`
/// function, which stands in the slots for what could not be loaded.
pub fn write_error_fns() -> (text: String)
    ensures
        text@ == error_fns(),
{
    let mut text = String::from_str(MISSING_FN_HEAD);
    text.append(NOT_LOADED);
    text.append(MISSING_FN_TAIL);
    text
}

/// The call that loads one command.
pub open spec fn load_call(cmd: CmdView) -> Seq<char> {
    cmd.proto.ident + LOAD_CALL@
}

/// The calls that load the commands, one for each.
pub open spec fn load_calls(cmds: Seq<CmdView>) -> Seq<Seq<char>> {
    cmds.map_values(|cmd: CmdView| load_call(cmd))
}

/// The function that loads every command, in the registry's order.
pub open spec fn load_fn(cmds: Seq<CmdView>) -> Seq<char> {
    LOAD_FN_OPEN@ + load_calls(cmds).flatten() + LOAD_FN_CLOSE@
}

/// Creates the `load_with` function, which calls `load_with` in the module
/// of each command.
pub fn write_load_fn(registry: &Registry) -> (text: String)
    ensures
        text@ == load_fn(registry@.cmds),
{
    let ghost pieces = load_calls(registry@.cmds);
    let mut text = String::from_str(LOAD_FN_OPEN);
    let cmds = registry.cmds();
    let mut i: usize = 0;
    while i < cmds.len()
        invariant
            i <= cmds@.len(),
            cmd_views(cmds@) == registry@.cmds,
            pieces == load_calls(registry@.cmds),
            text@ == LOAD_FN_OPEN@ + pieces.take(i as int).flatten(),
        decreases cmds@.len() - i,
    {
        text.append(cmds[i].proto.ident.as_str());
        text.append(LOAD_CALL);
        proof {
            lemma_flatten_step(pieces, i as int);
            assert(text@ =~= LOAD_FN_OPEN@ + pieces.take(i + 1).flatten());
        }
        i = i + 1;
    }
    proof {
        assert(pieces.take(pieces.len() as int) == pieces);
    }
    text.append(LOAD_FN_CLOSE);
    text
}

/// The arm that leads from a command's native symbol to its function.
pub open spec fn symbol_arm(api: Api, cmd: CmdView) -> Seq<char> {
    ARM_HEAD@ + native_name(api, cmd.proto.ident) + ARM_MID@ + cmd.proto.ident + ARM_TAIL@
}

/// The arms of the commands, one for each.
pub open spec fn symbol_arms(registry: RegistryView) -> Seq<Seq<char>> {
    registry.cmds.map_values(|cmd: CmdView| symbol_arm(registry.api, cmd))
}

/// The function that finds a command's function by its native symbol.
pub open spec fn get_proc_addr(registry: RegistryView) -> Seq<char> {
    GET_PROC_ADDR_OPEN@ + symbol_arms(registry).flatten() + GET_PROC_ADDR_CLOSE@
}

/// Creates the `get_proc_addr` function. It adds a layer of indirection,
/// but allows bindings made for the `gl` crate to be loaded from these.
pub fn write_get_proc_addr(registry: &Registry) -> (text: String)
    ensures
        text@ == get_proc_addr(registry@),
{
    let ghost pieces = symbol_arms(registry@);
    let mut text = String::from_str(GET_PROC_ADDR_OPEN);
    let cmds = registry.cmds();
    let mut i: usize = 0;
    while i < cmds.len()
        invariant
            i <= cmds@.len(),
            cmd_views(cmds@) == registry@.cmds,
            pieces == symbol_arms(registry@),
            text@ == GET_PROC_ADDR_OPEN@ + pieces.take(i as int).flatten(),
        decreases cmds@.len() - i,
    {
        let name = cmds[i].proto.ident.as_str();
        text.append(ARM_HEAD);
        text.append(gen_symbol_name(registry.api(), name).as_str());
        text.append(ARM_MID);
        text.append(name);
        text.append(ARM_TAIL);
        proof {
            lemma_flatten_step(pieces, i as int);
            assert(text@ =~= GET_PROC_ADDR_OPEN@ + pieces.take(i + 1).flatten());
        }
        i = i + 1;
    }
    proof {
        assert(pieces.take(pieces.len() as int) == pieces);
    }
    text.append(GET_PROC_ADDR_CLOSE);
    text
}

/// The bindings for a registry, given the type aliases of its API: every
/// part in the order in which the generator writes it.
pub open spec fn bindings(registry: RegistryView, types: Seq<char>) -> Seq<char> {
    HEADER@ + METALOADFN@ + types_module(types) + enum_lines(registry.enums).flatten()
        + command_fns(registry).flatten() + FNPTR_STRUCT_DEF@ + storage_module(registry.cmds)
        + command_mods(registry).flatten() + error_fns() + load_fn(registry.cmds)
        + get_proc_addr(registry)
}

/// The generator of bindings that call through libepoxy.
#[allow(missing_copy_implementations)]
pub struct EpoxyGenerator;

impl EpoxyGenerator {
    /// Builds the bindings for `registry`: every part, in order, in one
    /// text.
    pub fn write(&self, registry: &Registry) -> (result: Result<String, EmitError>)
        ensures
            result matches Ok(text) && text@ == bindings(registry@, type_aliases(registry@.api)),
    {
        let mut text = write_header();
        text.append(write_metaloadfn().as_str());
        match write_type_aliases(registry) {
            Ok(part) => {
                text.append(part.as_str());
            },
            Err(error) => {
                return Err(error);
            },
        }
        match write_enums(registry) {
            Ok(part) => {
                text.append(part.as_str());
            },
            Err(error) => {
                return Err(error);
            },
        }
        text.append(write_fns(registry).as_str());
        text.append(write_fnptr_struct_def().as_str());
        text.append(write_ptrs(registry).as_str());
        text.append(write_fn_mods(registry).as_str());
        text.append(write_error_fns().as_str());
        text.append(write_load_fn(registry).as_str());
        text.append(write_get_proc_addr(registry).as_str());
        Ok(text)
    }
}

} // verus!
