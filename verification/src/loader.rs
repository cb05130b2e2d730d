//! The loader: the function that is asked for the address of a symbol, with
//! the record of the names it has been asked for.

use vstd::prelude::*;

verus! {

/// The function accepts every symbol name.
pub open spec fn total<F: Fn(&str) -> usize>(loadfn: &F) -> bool {
    forall|name: &str| call_requires(*loadfn, (name,))
}

/// `address` is an answer the function may give when asked for `name`.
pub open spec fn answers<F: Fn(&str) -> usize>(
    loadfn: &F,
    name: Seq<char>,
    address: usize,
) -> bool {
    exists|asked: &str| asked@ == name && #[trigger] call_ensures(*loadfn, (asked,), address)
}

/// Every answer the function may give for `name` is `address`.
pub open spec fn answers_only<F: Fn(&str) -> usize>(
    loadfn: &F,
    name: Seq<char>,
    address: usize,
) -> bool {
    forall|other: usize| answers(loadfn, name, other) ==> other == address
}

/// The function never gives two different answers for one name.
pub open spec fn deterministic<F: Fn(&str) -> usize>(loadfn: &F) -> bool {
    forall|name: Seq<char>, first: usize, second: usize|
        answers(loadfn, name, first) && answers(loadfn, name, second) ==> first == second
}

/// A loader: a function from a symbol's name to its address, null where it
/// has none, and the names it has been asked for so far, in order. The
/// function is called through [`Loader::ask`] alone, which writes each name
/// down.
pub struct Loader<F> {
    loadfn: F,
    asked: Ghost<Seq<Seq<char>>>,
}

impl<F: Fn(&str) -> usize> Loader<F> {
    /// The function that is asked.
    pub closed spec fn function(&self) -> F {
        self.loadfn
    }

    /// The names the loader has been asked for, first to last.
    pub closed spec fn asked(&self) -> Seq<Seq<char>> {
        self.asked@
    }

    /// A loader that asks `loadfn` and has not been asked for anything yet.
    pub fn new(loadfn: F) -> (loader: Loader<F>)
        ensures
            loader.function() == loadfn,
            loader.asked() == Seq::<Seq<char>>::empty(),
    {
        Loader { loadfn, asked: Ghost(Seq::empty()) }
    }

    /// Asks for the address of `name`, and writes the name down.
    pub fn ask(&mut self, name: &str) -> (address: usize)
        requires
            total(&old(self).function()),
        ensures
            final(self).function() == old(self).function(),
            final(self).asked() == old(self).asked().push(name@),
            answers(&old(self).function(), name@, address),
    {
        let address = (self.loadfn)(name);
        proof {
            self.asked@ = self.asked@.push(name@);
        }
        address
    }
}

} // verus!
