//! The fixed text of the bindings, cut where a name of the registry goes in.

use vstd::prelude::*;

verus! {

/// The module of imports that the bindings rely on.
pub const HEADER: &'static str = r#"
        mod __gl_imports {
            pub extern crate libc;
            pub use std::mem;
            pub use std::ptr;
            pub use std::os::raw;
            pub use std::process::exit;
        }
    
"#;

/// The function that looks a symbol up, then its fallbacks.
pub const METALOADFN: &'static str = r#"
        fn metaloadfn<F>(mut loadfn: F,
                         symbol: &str,
                         fallbacks: &[&str]) -> *const *const __gl_imports::raw::c_void
                         where F: FnMut(&str) -> *const __gl_imports::raw::c_void {
            let mut ptr = loadfn(symbol);
            if ptr.is_null() {
                for &sym in fallbacks.iter() {
                    ptr = loadfn(sym);
                    if !ptr.is_null() { break; }
                }
            }
            ptr as *const *const __gl_imports::raw::c_void
        }
    
"#;

/// Opens the module of type aliases.
pub const TYPES_OPEN: &'static str = r#"
        pub mod types {
            #![allow(non_camel_case_types, non_snake_case, dead_code, missing_copy_implementations)]
    
"#;

/// Closes the module of type aliases.
pub const TYPES_CLOSE: &'static str = r#"
        }
    
"#;

/// Starts the line that lists the fallbacks of a command.
pub const FALLBACKS_NOTE: &'static str = "/// Fallbacks: ";

/// A command's function, up to its name.
pub const FN_HEAD: &'static str = r#"
            #[allow(non_snake_case, unused_variables, dead_code)] #[inline]
            pub unsafe fn "#;

/// From the return type of a command's function to the slot that the
/// function tests before it calls.
pub const FN_CHECK: &'static str = r#" {
                if !storage::"#;

/// From that slot to the name under which a function that is not loaded
/// reports itself.
pub const FN_REPORT: &'static str = r#".is_loaded {
                    missing_fn(""#;

/// From that name to the parameter types of the pointer that the function
/// calls through.
pub const FN_CAST: &'static str = r#"");
                }
                __gl_imports::mem::transmute::<_, extern "system" fn("#;

/// From the pointer's return type to the name of the slot.
pub const FN_SLOT: &'static str = r#">
                    (*storage::"#;

/// From the slot to the arguments of the call.
pub const FN_CALL: &'static str = ".pf)(";

/// Closes a command's function.
pub const FN_TAIL: &'static str = r#")
            }
"#;

/// The structure that stores one binding.
pub const FNPTR_STRUCT_DEF: &'static str = r#"
        #[allow(missing_copy_implementations)]
        pub struct FnPtr {
            /// Pointer to the entry in libepoxy's dispatch table
            pf: *const *const __gl_imports::raw::c_void,
            /// True if the pointer points to a real function, false if points to an error fn
            is_loaded: bool,
        }
        impl FnPtr {
            /// Creates a `FnPtr` from a load attempt.
            pub fn new(ptr: *const *const __gl_imports::raw::c_void) -> FnPtr {
                if ptr.is_null() {
                    FnPtr {
                        pf: &PMISSING_FN_EXIT,
                        is_loaded: false,
                    }
                } else {
                    FnPtr { pf: ptr, is_loaded: true }
                }
            }
        }
    
"#;

/// Opens the module of slots.
pub const PTRS_OPEN: &'static str = r#"mod storage {
            #![allow(non_snake_case, non_upper_case_globals)]
            use super::PMISSING_FN_EXIT;
            use super::FnPtr;
"#;

/// A slot, up to the name of its command.
pub const PTR_HEAD: &'static str = "pub static mut ";

/// A slot, from its type on: it starts out unresolved.
pub const PTR_TAIL: &'static str = r#": FnPtr = FnPtr {
                pf: &PMISSING_FN_EXIT,
                is_loaded: false,
            };
"#;

/// Closes the module of slots.
pub const PTRS_CLOSE: &'static str = "}\n";

/// A command's module, up to its name.
pub const MOD_HEAD: &'static str = r#"
            #[allow(non_snake_case)]
            pub mod "#;

/// From the name of a command's module to the slot that `is_loaded` reads.
pub const MOD_IS_LOADED: &'static str = r#" {
                use super::{storage, metaloadfn};
                use super::FnPtr;
                #[inline]
                #[allow(dead_code)]
                pub fn is_loaded() -> bool {
                    unsafe { storage::"#;

/// From that slot to the slot that `load_with` fills.
pub const MOD_LOAD_WITH: &'static str = r#".is_loaded }
                }
                #[allow(dead_code)]
                pub fn load_with<F>(loadfn: F) where F: FnMut(&str) -> *const super::__gl_imports::raw::c_void {
                    unsafe {
                        storage::"#;

/// From that slot to the symbol that `load_with` looks up first.
pub const MOD_RESOLVE: &'static str = r#" = FnPtr::new(metaloadfn(loadfn, "epoxy_"#;

/// Between the symbol and the list of fallbacks.
pub const MOD_FALLBACKS: &'static str = r#"", "#;

/// Closes a command's module.
pub const MOD_TAIL: &'static str = r#"))
                    }
                }
            }
"#;

/// The function that reports a call of a function that is not loaded, up
/// to what it prints in front of that function's name.
pub const MISSING_FN_HEAD: &'static str = r#"
        #[inline(never)]
        #[allow(dead_code)]
        fn missing_fn(name: &str) -> ! {
            println!(""#;

/// The rest of that function: it prints the name and ends the process.
/// Behind it, the function that stands in the slots for one that could not
/// be loaded, and the pointer to it.
pub const MISSING_FN_TAIL: &'static str = r#"{}", name);
            __gl_imports::exit(1)
        }
        #[inline(never)]
        extern fn missing_fn_exit() {
            println!("function was not loaded");
            __gl_imports::exit(1);
        }
        const PMISSING_FN_EXIT: *const __gl_imports::raw::c_void = missing_fn_exit as *const __gl_imports::raw::c_void;
"#;

/// Opens the function that loads every command.
pub const LOAD_FN_OPEN: &'static str = r#"
        #[allow(dead_code)]
        pub fn load_with<F>(mut loadfn: F) where F: FnMut(&str) -> *const __gl_imports::raw::c_void {
    
"#;

/// The call that loads one command, behind the name of its module.
pub const LOAD_CALL: &'static str = "::load_with(|s| loadfn(s));\n";

/// Closes the function that loads every command.
pub const LOAD_FN_CLOSE: &'static str = r#"
        }
    
"#;

/// Opens the function that finds a command by its symbol.
pub const GET_PROC_ADDR_OPEN: &'static str = r#"
        #[allow(dead_code)]
        pub fn get_proc_addr(symbol: &str) -> *const __gl_imports::raw::c_void {
            match &symbol[..] {
    
"#;

/// An arm of that function, up to the symbol.
pub const ARM_HEAD: &'static str = r#"
            ""#;

/// Between the symbol and the command's function.
pub const ARM_MID: &'static str = r#"" => "#;

/// The cast that ends an arm.
pub const ARM_TAIL: &'static str = " as *const __gl_imports::raw::c_void,\n";

/// The arm for every other symbol, and the end of the function.
pub const GET_PROC_ADDR_CLOSE: &'static str = r#"
                _ => __gl_imports::ptr::null(),
            }
        }
    
"#;

} // verus!
