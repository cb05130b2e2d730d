//! The helpers of `gl_generator` that the bindings are made with, and what
//! each of them is taken to give.

use vstd::prelude::*;

use crate::registry::{Api, Binding, BindingView, Cmd, CmdView, Enum, EnumView};
use crate::text::views;

verus! {

/// The prefix an API's native symbols carry.
pub open spec fn api_prefix(api: Api) -> Seq<char> {
    match api {
        Api::Gl | Api::GlCore | Api::Gles1 | Api::Gles2 | Api::Glsc2 => "gl"@,
        Api::Glx => "glX"@,
        Api::Wgl => "wgl"@,
        Api::Egl => "egl"@,
    }
}

/// The native symbol of the command `cmd`.
pub open spec fn native_name(api: Api, cmd: Seq<char>) -> Seq<char> {
    api_prefix(api) + cmd
}

/// Calls `gl_generator::generators::gen_symbol_name`. It is taken to give
/// the command's name behind the prefix of the API: `gl`, `glX`, `wgl` or
/// `egl`.
#[verifier::external_body]
pub(crate) fn gen_symbol_name(api: Api, cmd: &str) -> (symbol: String)
    ensures
        symbol@ == native_name(api, cmd@),
{
    let outside = match api {
        Api::Gl => gl_generator::Api::Gl,
        Api::Glx => gl_generator::Api::Glx,
        Api::Wgl => gl_generator::Api::Wgl,
        Api::Egl => gl_generator::Api::Egl,
        Api::GlCore => gl_generator::Api::GlCore,
        Api::Gles1 => gl_generator::Api::Gles1,
        Api::Gles2 => gl_generator::Api::Gles2,
        Api::Glsc2 => gl_generator::Api::Glsc2,
    };
    gl_generator::generators::gen_symbol_name(outside, cmd)
}

/// How one parameter is written: its name and type, its type alone, or its
/// name alone.
pub open spec fn parameter(binding: BindingView, with_idents: bool, with_types: bool) -> Seq<char> {
    if with_idents && with_types {
        binding.ident + ": "@ + binding.ty
    } else if with_types {
        binding.ty
    } else {
        binding.ident
    }
}

/// The parameters of `cmd`, each written as [`parameter`] says.
pub open spec fn parameters(cmd: CmdView, with_idents: bool, with_types: bool) -> Seq<Seq<char>> {
    cmd.params.map_values(|binding: BindingView| parameter(binding, with_idents, with_types))
}

/// Calls `gl_generator::generators::gen_parameters`, which panics when asked
/// for neither names nor types. It is taken to give one string for each
/// parameter, in order: `name: type`, the type, or the name.
#[verifier::external_body]
pub(crate) fn gen_parameters(cmd: &Cmd, with_idents: bool, with_types: bool) -> (list: Vec<String>)
    requires
        with_idents || with_types,
    ensures
        views(list@) == parameters(cmd@, with_idents, with_types),
{
    let binding = |b: &Binding| gl_generator::Binding {
        ident: b.ident.clone(),
        ty: b.ty.clone().into(),
        group: None,
    };
    let proto = binding(&cmd.proto);
    let params = cmd.params.iter().map(binding).collect();
    let outside = gl_generator::Cmd { proto, params, alias: None, vecequiv: None, glx: None };
    gl_generator::generators::gen_parameters(&outside, with_idents, with_types)
}

/// The line that declares one enum constant.
pub open spec fn enum_item(enm: EnumView, types_prefix: Seq<char>) -> Seq<char> {
    let prefix = if enm.ty == "&'static str"@ {
        Seq::<char>::empty()
    } else {
        types_prefix
    };
    let cast_suffix = if enm.cast {
        " as "@ + types_prefix + enm.ty
    } else {
        Seq::<char>::empty()
    };
    "#[allow(dead_code, non_upper_case_globals)] pub const "@ + enm.ident + ": "@ + prefix
        + enm.ty + " = "@ + enm.value + cast_suffix + ";\n"@
}

/// Calls `gl_generator::generators::gen_enum_item` on a buffer in memory.
/// The call is taken to succeed: it fails only where a write does, and a
/// vector of bytes takes every write; what it writes is made of strings,
/// so the bytes are text. That text is taken to be the one line
/// `pub const name: type = value;` with its `allow` attribute in front, the
/// type behind `types_prefix` unless it is `&'static str`, and the value cast
/// to that type where the enum asks for a cast.
#[verifier::external_body]
pub(crate) fn gen_enum_item(enm: &Enum, types_prefix: &str) -> (line: Option<String>)
    ensures
        line is Some,
        line matches Some(text) ==> text@ == enum_item(enm@, types_prefix@),
{
    let outside = gl_generator::Enum {
        ident: enm.ident.clone(),
        value: enm.value.clone(),
        cast: enm.cast,
        alias: None,
        ty: enm.ty.clone().into(),
    };
    let mut dest: Vec<u8> = Vec::new();
    gl_generator::generators::gen_enum_item(&outside, types_prefix, &mut dest).ok()?;
    String::from_utf8(dest).ok()
}

/// The type aliases that `gl_generator` has for an API.
pub uninterp spec fn type_aliases(api: Api) -> Seq<char>;

/// Calls `gl_generator::generators::gen_types` on a buffer in memory. The
/// call is taken to succeed: it fails only where a write does, and a vector
/// of bytes takes every write; what it writes are templates held as strings,
/// so the bytes are text. That text is the type aliases of `api`.
#[verifier::external_body]
pub(crate) fn gen_types(api: Api) -> (aliases: Option<String>)
    ensures
        aliases is Some,
        aliases matches Some(text) ==> text@ == type_aliases(api),
{
    let outside = match api {
        Api::Gl => gl_generator::Api::Gl,
        Api::Glx => gl_generator::Api::Glx,
        Api::Wgl => gl_generator::Api::Wgl,
        Api::Egl => gl_generator::Api::Egl,
        Api::GlCore => gl_generator::Api::GlCore,
        Api::Gles1 => gl_generator::Api::Gles1,
        Api::Gles2 => gl_generator::Api::Gles2,
        Api::Glsc2 => gl_generator::Api::Glsc2,
    };
    let mut dest: Vec<u8> = Vec::new();
    gl_generator::generators::gen_types(outside, &mut dest).ok()?;
    String::from_utf8(dest).ok()
}

} // verus!
