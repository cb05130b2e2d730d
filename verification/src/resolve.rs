//! Resolution of one entry point: the primary symbol first, then its
//! fallbacks in order, and the slot that records the outcome.

use vstd::prelude::*;

use crate::loader::{answers, answers_only, deterministic, total, Loader};
use crate::text::views;

verus! {

/// The address every unresolved slot holds. It stands for the routine that
/// reports the missing function and ends the process, so a slot never holds
/// a null address.
pub const PMISSING_FN_EXIT: usize = usize::MAX;

/// The names a search tries, in the order it tries them: the primary symbol,
/// then the fallbacks as listed.
pub open spec fn candidates(symbol: Seq<char>, fallbacks: Seq<Seq<char>>) -> Seq<Seq<char>> {
    seq![symbol] + fallbacks
}

/// What a search hands back: the address it ended with, null when no name
/// resolved, and how many of the fallbacks it went through to get there.
#[derive(Clone, Copy, Debug, PartialEq, Eq, Structural)]
pub struct Lookup {
    pub address: usize,
    pub fallbacks_tried: usize,
}

/// A search over `names` that ended with `found`: it went through the first
/// `found.fallbacks_tried + 1` names, the loader answered null for all of
/// them but the last and `found.address` for the last, and the search
/// stopped there because that answer is not null or the list ends.
pub open spec fn search_outcome<F: Fn(&str) -> usize>(
    loadfn: &F,
    names: Seq<Seq<char>>,
    found: Lookup,
) -> bool {
    &&& found.fallbacks_tried < names.len()
    &&& forall|j: int| 0 <= j < found.fallbacks_tried ==> answers(loadfn, #[trigger] names[j], 0)
    &&& answers(loadfn, names[found.fallbacks_tried as int], found.address)
    &&& found.address != 0 || found.fallbacks_tried + 1 == names.len()
}

/// The names a search that ended with `found` asked for: the first
/// `found.fallbacks_tried + 1` of `names`, in their order, and no other.
pub open spec fn asked_by(names: Seq<Seq<char>>, found: Lookup) -> Seq<Seq<char>> {
    names.take(found.fallbacks_tried + 1)
}

/// Asks `loader` for `symbol` and, while the answer is null, for each of
/// `fallbacks` in turn, stopping at the first answer that is not null. It
/// asks for the names the search went through, once each and in order, and
/// for none that come after.
pub fn metaloadfn<F: Fn(&str) -> usize>(
    loader: &mut Loader<F>,
    symbol: &str,
    fallbacks: &[String],
) -> (found: Lookup)
    requires
        total(&old(loader).function()),
    ensures
        final(loader).function() == old(loader).function(),
        search_outcome(&old(loader).function(), candidates(symbol@, views(fallbacks@)), found),
        final(loader).asked() == old(loader).asked() + asked_by(
            candidates(symbol@, views(fallbacks@)),
            found,
        ),
{
    let ghost names = candidates(symbol@, views(fallbacks@));
    let mut ptr: usize = loader.ask(symbol);
    let mut tried: usize = 0;
    assert(loader.asked() =~= old(loader).asked() + names.take(1));
    while ptr == 0 && tried < fallbacks.len()
        invariant
            loader.function() == old(loader).function(),
            total(&loader.function()),
            names == candidates(symbol@, views(fallbacks@)),
            tried <= fallbacks.len(),
            forall|j: int| 0 <= j < tried ==> answers(&loader.function(), #[trigger] names[j], 0),
            answers(&loader.function(), names[tried as int], ptr),
            loader.asked() == old(loader).asked() + names.take(tried + 1),
        decreases fallbacks.len() - tried,
    {
        let ghost before = loader.asked();
        ptr = loader.ask(fallbacks[tried].as_str());
        tried = tried + 1;
        assert(names.take(tried + 1) =~= names.take(tried as int).push(names[tried as int]));
        assert(loader.asked() =~= old(loader).asked() + names.take(tried + 1));
    }
    Lookup { address: ptr, fallbacks_tried: tried }
}

/// What a resolution slot holds, as contracts see it.
pub struct Slot {
    /// The address calls go through.
    pub address: usize,
    /// Whether that address is a resolved entry point.
    pub loaded: bool,
}

/// The slot a load attempt that ended with `ptr` leaves behind: the sentinel
/// when the attempt ended with null, the address it found otherwise.
pub open spec fn slot_after(ptr: usize) -> Slot {
    if ptr == 0 {
        Slot { address: PMISSING_FN_EXIT, loaded: false }
    } else {
        Slot { address: ptr, loaded: true }
    }
}

/// Whatever a load attempt ended with, the slot it leaves is not null; it is
/// loaded exactly when the attempt was not null, and holds the sentinel when
/// it is not loaded.
pub proof fn law_slot_never_null(ptr: usize)
    ensures
        slot_after(ptr).address != 0,
        slot_after(ptr).loaded <==> ptr != 0,
        !slot_after(ptr).loaded ==> slot_after(ptr).address == PMISSING_FN_EXIT,
{
}

/// One resolution slot: the address to call through and whether it is a
/// resolved entry point or the missing-function sentinel.
#[derive(Clone, Copy, Debug, PartialEq, Eq, Structural)]
pub struct FnPtr {
    pf: usize,
    is_loaded: bool,
}

impl View for FnPtr {
    type V = Slot;

    closed spec fn view(&self) -> Slot {
        Slot { address: self.pf, loaded: self.is_loaded }
    }
}

impl FnPtr {
    /// A slot is never null, and an unresolved slot holds the sentinel.
    #[verifier::type_invariant]
    spec fn well_formed(self) -> bool {
        &&& self.pf != 0
        &&& !self.is_loaded ==> self.pf == PMISSING_FN_EXIT
    }

    /// Creates a `FnPtr` from a load attempt.
    pub fn new(ptr: usize) -> (slot: FnPtr)
        ensures
            slot@ == slot_after(ptr),
    {
        if ptr == 0 {
            FnPtr { pf: PMISSING_FN_EXIT, is_loaded: false }
        } else {
            FnPtr { pf: ptr, is_loaded: true }
        }
    }

    /// True if the slot points to a real function, false if it points to the
    /// routine that reports the missing function.
    pub fn is_loaded(&self) -> (loaded: bool)
        ensures
            loaded == self@.loaded,
    {
        self.is_loaded
    }

    /// The address stored in the slot: never null, and the sentinel whenever
    /// the slot is not loaded.
    pub fn pf(&self) -> (address: usize)
        ensures
            address == self@.address,
            address != 0,
            !self@.loaded ==> address == PMISSING_FN_EXIT,
    {
        proof {
            use_type_invariant(self);
        }
        self.pf
    }
}

/// `slot` is what resolving `symbol` with `fallbacks` through `loadfn` may
/// leave behind: the slot of a search over the candidates.
pub open spec fn resolves<F: Fn(&str) -> usize>(
    loadfn: &F,
    symbol: Seq<char>,
    fallbacks: Seq<Seq<char>>,
    slot: Slot,
) -> bool {
    exists|found: Lookup| #[trigger]
        search_outcome(loadfn, candidates(symbol, fallbacks), found) && slot == slot_after(
            found.address,
        )
}

/// `slot` is what resolving `symbol` with `fallbacks` leaves behind, and
/// `after` is the record of a loader that had `before` in it: the search
/// added the names it asked for, and no other.
pub open spec fn resolves_asking<F: Fn(&str) -> usize>(
    loadfn: &F,
    symbol: Seq<char>,
    fallbacks: Seq<Seq<char>>,
    slot: Slot,
    before: Seq<Seq<char>>,
    after: Seq<Seq<char>>,
) -> bool {
    exists|found: Lookup| #[trigger]
        search_outcome(loadfn, candidates(symbol, fallbacks), found) && slot == slot_after(
            found.address,
        ) && after == before + asked_by(candidates(symbol, fallbacks), found)
}

/// Resolves one command: searches the primary symbol and the fallbacks with
/// `loader` and makes the slot for what the search found.
pub fn resolve<F: Fn(&str) -> usize>(
    loader: &mut Loader<F>,
    symbol: &str,
    fallbacks: &[String],
) -> (slot: FnPtr)
    requires
        total(&old(loader).function()),
    ensures
        final(loader).function() == old(loader).function(),
        resolves(&old(loader).function(), symbol@, views(fallbacks@), slot@),
        resolves_asking(
            &old(loader).function(),
            symbol@,
            views(fallbacks@),
            slot@,
            old(loader).asked(),
            final(loader).asked(),
        ),
{
    let found = metaloadfn(loader, symbol, fallbacks);
    FnPtr::new(found.address)
}

/// Under a loader that never gives two answers for one name, a search has
/// one outcome.
pub proof fn lemma_search_unique<F: Fn(&str) -> usize>(
    loadfn: &F,
    names: Seq<Seq<char>>,
    first: Lookup,
    second: Lookup,
)
    requires
        deterministic(loadfn),
        search_outcome(loadfn, names, first),
        search_outcome(loadfn, names, second),
    ensures
        first == second,
{
    if first.fallbacks_tried < second.fallbacks_tried {
        assert(answers(loadfn, names[first.fallbacks_tried as int], 0));
    } else if second.fallbacks_tried < first.fallbacks_tried {
        assert(answers(loadfn, names[second.fallbacks_tried as int], 0));
    }
}

/// With no fallbacks, resolution succeeds exactly when the lookup of the
/// primary symbol is not null, and the slot then holds the address that
/// lookup gave.
pub proof fn law_primary_alone<F: Fn(&str) -> usize>(
    loadfn: &F,
    symbol: Seq<char>,
    primary: usize,
    slot: Slot,
)
    requires
        answers_only(loadfn, symbol, primary),
        resolves(loadfn, symbol, Seq::empty(), slot),
    ensures
        slot.loaded <==> primary != 0,
        slot.loaded ==> slot.address == primary,
        !slot.loaded ==> slot.address == PMISSING_FN_EXIT,
{
    let found = choose|found: Lookup| #[trigger]
        search_outcome(loadfn, candidates(symbol, Seq::empty()), found) && slot == slot_after(
            found.address,
        );
    assert(candidates(symbol, Seq::empty())[0] == symbol);
}

/// If the lookup of the primary symbol is null and fallback `i` is the first
/// whose lookup is not, the search stops at fallback `i`: it asks for the
/// primary symbol and the fallbacks up to `i`, for none after `i`, and the
/// slot is loaded with the address that fallback `i` gave.
pub proof fn law_first_fallback_wins<F: Fn(&str) -> usize>(
    loadfn: &F,
    symbol: Seq<char>,
    fallbacks: Seq<Seq<char>>,
    i: int,
    pointer: usize,
    found: Lookup,
)
    requires
        0 <= i < fallbacks.len(),
        answers_only(loadfn, symbol, 0),
        forall|j: int| 0 <= j < i ==> answers_only(loadfn, #[trigger] fallbacks[j], 0),
        answers_only(loadfn, fallbacks[i], pointer),
        pointer != 0,
        search_outcome(loadfn, candidates(symbol, fallbacks), found),
    ensures
        found.fallbacks_tried == i + 1,
        found.address == pointer,
        slot_after(found.address) == (Slot { address: pointer, loaded: true }),
        asked_by(candidates(symbol, fallbacks), found) == seq![symbol] + fallbacks.take(i + 1),
{
    let names = candidates(symbol, fallbacks);
    assert(names[0] == symbol);
    assert forall|k: int| 1 <= k <= fallbacks.len() implies #[trigger] names[k] == fallbacks[k
        - 1] by {}
    let tried = found.fallbacks_tried as int;
    if tried < i + 1 {
        // The last name asked for answers null, so the search ran to the end.
        if tried > 0 {
            assert(names[tried] == fallbacks[tried - 1]);
        }
        assert(found.address == 0);
    } else if tried > i + 1 {
        // Fallback `i` was asked for before the last name, and answered null.
        assert(names[i + 1] == fallbacks[i]);
        assert(answers(loadfn, names[i + 1], 0));
    } else {
        assert(names[tried] == fallbacks[i]);
    }
}

/// A search that ended with an address went no further: with any other
/// names behind the one that answered, it has the same outcome.
pub proof fn law_rest_not_asked<F: Fn(&str) -> usize>(
    loadfn: &F,
    symbol: Seq<char>,
    fallbacks: Seq<Seq<char>>,
    others: Seq<Seq<char>>,
    found: Lookup,
)
    requires
        search_outcome(loadfn, candidates(symbol, fallbacks), found),
        found.address != 0,
    ensures
        search_outcome(
            loadfn,
            candidates(symbol, fallbacks.take(found.fallbacks_tried as int) + others),
            found,
        ),
{
    let names = candidates(symbol, fallbacks);
    let changed = candidates(symbol, fallbacks.take(found.fallbacks_tried as int) + others);
    assert forall|j: int| 0 <= j <= found.fallbacks_tried implies #[trigger] changed[j]
        == names[j] by {}
}

/// If the lookups of the primary symbol and of every fallback are null, the
/// slot is not loaded and holds the sentinel.
pub proof fn law_nothing_found<F: Fn(&str) -> usize>(
    loadfn: &F,
    symbol: Seq<char>,
    fallbacks: Seq<Seq<char>>,
    slot: Slot,
)
    requires
        answers_only(loadfn, symbol, 0),
        forall|j: int|
            0 <= j < fallbacks.len() ==> answers_only(loadfn, #[trigger] fallbacks[j], 0),
        resolves(loadfn, symbol, fallbacks, slot),
    ensures
        !slot.loaded,
        slot.address == PMISSING_FN_EXIT,
{
    let names = candidates(symbol, fallbacks);
    let found = choose|found: Lookup| #[trigger]
        search_outcome(loadfn, names, found) && slot == slot_after(found.address);
    let tried = found.fallbacks_tried as int;
    if tried == 0 {
        assert(names[0] == symbol);
    } else {
        assert(names[tried] == fallbacks[tried - 1]);
    }
}

/// Under a loader that never gives two answers for one name, resolving a
/// command again leaves the same slot.
pub proof fn law_resolve_again<F: Fn(&str) -> usize>(
    loadfn: &F,
    symbol: Seq<char>,
    fallbacks: Seq<Seq<char>>,
    first: Slot,
    second: Slot,
)
    requires
        deterministic(loadfn),
        resolves(loadfn, symbol, fallbacks, first),
        resolves(loadfn, symbol, fallbacks, second),
    ensures
        first == second,
{
    let names = candidates(symbol, fallbacks);
    let one = choose|found: Lookup| #[trigger]
        search_outcome(loadfn, names, found) && first == slot_after(found.address);
    let two = choose|found: Lookup| #[trigger]
        search_outcome(loadfn, names, found) && second == slot_after(found.address);
    lemma_search_unique(loadfn, names, one, two);
}

} // verus!
