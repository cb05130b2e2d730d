use std::cell::RefCell;

use epoxy_gen::bindings::{
    fallback_symbol_names, missing_fn_message, symbol_name, Bindings, CallError,
};
use epoxy_gen::loader::Loader;
use epoxy_gen::registry::{Api, Binding, Cmd, Registry};
use epoxy_gen::resolve::{FnPtr, PMISSING_FN_EXIT};

fn command(ident: &str) -> Cmd {
    Cmd {
        proto: Binding { ident: ident.to_string(), ty: "__gl_imports::raw::c_void".to_string() },
        params: vec![],
    }
}

/// `Foo` without fallbacks and `Bar` with the fallback `BarOld`.
fn foo_and_bar(api: Api) -> Registry {
    let mut registry = Registry::new(api);
    assert!(registry.add_cmd(command("Foo")));
    assert!(registry.add_cmd(command("Bar")));
    registry.set_aliases("Bar".to_string(), vec!["BarOld".to_string()]);
    registry
}

#[test]
fn symbol_names_carry_the_prefixes() {
    assert_eq!(symbol_name(Api::Gl, "Clear"), "epoxy_glClear");
    assert_eq!(symbol_name(Api::GlCore, "Clear"), "epoxy_glClear");
    assert_eq!(symbol_name(Api::Gles1, "Clear"), "epoxy_glClear");
    assert_eq!(symbol_name(Api::Gles2, "Clear"), "epoxy_glClear");
    assert_eq!(symbol_name(Api::Glsc2, "Clear"), "epoxy_glClear");
    assert_eq!(symbol_name(Api::Glx, "SwapBuffers"), "epoxy_glXSwapBuffers");
    assert_eq!(symbol_name(Api::Wgl, "CreateContext"), "epoxy_wglCreateContext");
    assert_eq!(symbol_name(Api::Egl, "Initialize"), "epoxy_eglInitialize");
    assert_eq!(symbol_name(Api::Gl, ""), "epoxy_gl");
}

#[test]
fn symbol_name_is_the_same_every_time() {
    assert_eq!(symbol_name(Api::Egl, "Terminate"), symbol_name(Api::Egl, "Terminate"));
}

#[test]
fn fallback_symbols_follow_the_alias_table() {
    let mut registry = foo_and_bar(Api::Gl);
    assert_eq!(fallback_symbol_names(&registry, "Bar"), vec!["glBarOld".to_string()]);
    assert_eq!(fallback_symbol_names(&registry, "Foo"), Vec::<String>::new());
    assert_eq!(fallback_symbol_names(&registry, "Other"), Vec::<String>::new());
    registry.set_aliases("Foo".to_string(), vec!["FooB".to_string(), "FooA".to_string()]);
    assert_eq!(
        fallback_symbol_names(&registry, "Foo"),
        vec!["glFooB".to_string(), "glFooA".to_string()]
    );
    let mut registry = foo_and_bar(Api::Glx);
    registry.set_aliases("Foo".to_string(), vec!["FooB".to_string(), "FooA".to_string()]);
    assert_eq!(
        fallback_symbol_names(&registry, "Foo"),
        vec!["glXFooB".to_string(), "glXFooA".to_string()]
    );
}

#[test]
fn new_table_has_every_slot_unresolved() {
    let table = Bindings::new(&foo_and_bar(Api::Gl));
    assert_eq!(table.len(), 2);
    assert_eq!(table.position("Foo"), Some(0));
    assert_eq!(table.position("Bar"), Some(1));
    assert_eq!(table.position("BarOld"), None);
    assert!(!table.is_loaded("Foo"));
    assert!(!table.is_loaded("Bar"));
    assert_eq!(table.slot("Foo"), Some(FnPtr::new(0)));
    assert_eq!(table.slot("Bar").map(|slot| slot.pf()), Some(PMISSING_FN_EXIT));
    assert_eq!(table.slot("Baz"), None);
}

#[test]
fn scenario_foo_missing_bar_found_by_fallback() {
    let mut table = Bindings::new(&foo_and_bar(Api::Gl));
    let calls = RefCell::new(Vec::new());
    let loader = |name: &str| {
        calls.borrow_mut().push(name.to_string());
        if name == "glBarOld" { 0xba5 } else { 0 }
    };
    table.load_with(&mut Loader::new(&loader));
    assert_eq!(
        *calls.borrow(),
        vec!["epoxy_glFoo".to_string(), "epoxy_glBar".to_string(), "glBarOld".to_string()]
    );
    assert!(!table.is_loaded("Foo"));
    assert!(table.is_loaded("Bar"));
    assert_eq!(table.slot("Bar").map(|slot| slot.pf()), Some(0xba5));
    assert_eq!(table.slot("Foo").map(|slot| slot.pf()), Some(PMISSING_FN_EXIT));
    assert_eq!(table.entry_point("Foo"), Err(CallError::NotLoaded));
    assert_eq!(table.entry_point("Bar"), Ok(0xba5));
}

#[test]
fn primary_symbol_wins_over_the_fallback() {
    let mut table = Bindings::new(&foo_and_bar(Api::Gl));
    let loader = |name: &str| match name {
        "epoxy_glBar" => 1,
        "glBarOld" => 2,
        _ => 0,
    };
    table.load_with(&mut Loader::new(&loader));
    assert_eq!(table.entry_point("Bar"), Ok(1));
}

#[test]
fn load_with_twice_leaves_the_same_slots() {
    let mut table = Bindings::new(&foo_and_bar(Api::Gl));
    let loader = |name: &str| if name == "glBarOld" { 0x40 } else { 0 };
    table.load_with(&mut Loader::new(&loader));
    let once = (table.slot("Foo"), table.slot("Bar"));
    table.load_with(&mut Loader::new(&loader));
    let twice = (table.slot("Foo"), table.slot("Bar"));
    assert_eq!(once, twice);
    assert_eq!(twice, (Some(FnPtr::new(0)), Some(FnPtr::new(0x40))));
}

#[test]
fn load_with_another_loader_overwrites() {
    let mut table = Bindings::new(&foo_and_bar(Api::Gl));
    table.load_with(&mut Loader::new(|name: &str| if name == "epoxy_glFoo" { 0x11 } else { 0x22 }));
    assert_eq!(table.entry_point("Foo"), Ok(0x11));
    assert_eq!(table.entry_point("Bar"), Ok(0x22));
    table.load_with(&mut Loader::new(|name: &str| if name == "epoxy_glBar" { 0x33 } else { 0 }));
    assert_eq!(table.entry_point("Foo"), Err(CallError::NotLoaded));
    assert_eq!(table.slot("Foo"), Some(FnPtr::new(0)));
    assert_eq!(table.entry_point("Bar"), Ok(0x33));
}

#[test]
fn one_command_can_be_loaded_alone() {
    let mut table = Bindings::new(&foo_and_bar(Api::Gl));
    let calls = RefCell::new(Vec::new());
    let loader = |name: &str| {
        calls.borrow_mut().push(name.to_string());
        9
    };
    assert!(table.load_command_with("Bar", &mut Loader::new(&loader)));
    assert_eq!(*calls.borrow(), vec!["epoxy_glBar".to_string()]);
    assert!(table.is_loaded("Bar"));
    assert!(!table.is_loaded("Foo"));
    assert!(!table.load_command_with("Baz", &mut Loader::new(&loader)));
    assert_eq!(calls.borrow().len(), 1);
    assert_eq!(table.len(), 2);
}

#[test]
fn entry_point_of_an_unknown_command() {
    let table = Bindings::new(&foo_and_bar(Api::Gl));
    assert_eq!(table.entry_point("Baz"), Err(CallError::UnknownCommand));
    assert!(!table.is_loaded("Baz"));
}

#[test]
fn entry_point_before_any_load() {
    let table = Bindings::new(&foo_and_bar(Api::Gl));
    assert_eq!(table.entry_point("Foo"), Err(CallError::NotLoaded));
    assert_eq!(table.entry_point("Bar"), Err(CallError::NotLoaded));
}

#[test]
fn get_proc_addr_goes_by_the_native_symbol() {
    let mut table = Bindings::new(&foo_and_bar(Api::Gl));
    assert_eq!(table.get_proc_addr("glFoo"), PMISSING_FN_EXIT);
    assert_eq!(table.get_proc_addr("Foo"), 0);
    assert_eq!(table.get_proc_addr("epoxy_glFoo"), 0);
    assert_eq!(table.get_proc_addr("glBarOld"), 0);
    table.load_with(&mut Loader::new(|name: &str| if name == "epoxy_glBar" { 0x50 } else { 0 }));
    assert_eq!(table.get_proc_addr("glBar"), 0x50);
    assert_eq!(table.get_proc_addr("glFoo"), PMISSING_FN_EXIT);
}

#[test]
fn a_table_can_load_another() {
    let mut inner = Bindings::new(&foo_and_bar(Api::Gl));
    inner.load_with(&mut Loader::new(|name: &str| if name == "epoxy_glBar" { 0x60 } else { 0 }));
    let loader = |name: &str| inner.get_proc_addr(name.strip_prefix("epoxy_").unwrap_or(name));
    let mut outer = Bindings::new(&foo_and_bar(Api::Gl));
    outer.load_with(&mut Loader::new(&loader));
    assert_eq!(outer.entry_point("Bar"), Ok(0x60));
    assert_eq!(outer.entry_point("Foo"), Ok(PMISSING_FN_EXIT));
}

#[test]
fn a_name_has_one_slot() {
    let mut registry = foo_and_bar(Api::Gl);
    assert!(!registry.add_cmd(command("Foo")));
    let table = Bindings::new(&registry);
    assert_eq!(table.len(), 2);
    assert_eq!(table.position("Foo"), Some(0));
}

#[test]
fn empty_registry_empty_table() {
    let mut table = Bindings::new(&Registry::new(Api::Egl));
    assert_eq!(table.len(), 0);
    let calls = RefCell::new(0);
    table.load_with(&mut Loader::new(|_: &str| {
        *calls.borrow_mut() += 1;
        1
    }));
    assert_eq!(*calls.borrow(), 0);
    assert_eq!(table.position("Foo"), None);
}

#[test]
fn message_names_the_function() {
    assert_eq!(missing_fn_message("Foo"), "function was not loaded: Foo");
    assert_eq!(missing_fn_message(""), "function was not loaded: ");
}
