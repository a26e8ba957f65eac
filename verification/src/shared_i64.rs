//! A shareable `i64`.
use crate::backing::load_isize;
use crate::backing::read_locked;
use crate::backing::store_isize;
use crate::backing::write_locked;
use crate::backing::ScalarBacking;
use crate::lineage::Sharing;
use crate::word::atomic_backing_for;
use crate::word::i64_of_word;
use crate::word::word_holds;
use crate::word::word_of_i64;
use std::sync::atomic::AtomicIsize;
use std::sync::Arc;
use std::sync::Mutex;
use vstd::prelude::*;

verus! {

/// How the value is held.
enum Data {
    /// There is only one handle to the value.
    Single(i64),
    /// There are, or there were, several handles to the value.
    Multiple(ScalarBacking<AtomicIsize, i64>),
}

/// Shareable `i64` cell.
///
/// While there is one handle, the value is a plain field. From the first
/// duplication on it lives in storage that all handles of the lineage share:
/// an atomic word where the native word is 64 bits wide, a mutex where it is
/// narrower.
pub struct SharedI64 {
    data: Data,
}

impl View for SharedI64 {
    type V = Sharing<i64, ScalarBacking<AtomicIsize, i64>>;

    closed spec fn view(&self) -> Self::V {
        match self.data {
            Data::Single(v) => Sharing::Unshared(v),
            Data::Multiple(backing) => Sharing::Shared(backing),
        }
    }
}

impl SharedI64 {
    /// The width of the value in bits.
    pub const BITS: u32 = 64;

    /// Whether a backing is the one that the backing rule asks for on this
    /// platform.
    pub open spec fn rule_allows(backing: ScalarBacking<AtomicIsize, i64>) -> bool {
        backing is Word <==> word_holds(isize::BITS as int, 64)
    }

    /// A shared cell has the backing that the backing rule asks for.
    #[verifier::type_invariant]
    closed spec fn follows_rule(self) -> bool {
        self@ matches Sharing::Shared(backing) ==> Self::rule_allows(backing)
    }

    /// Makes an unshared cell that holds `value`.
    pub fn new(value: i64) -> (cell: SharedI64)
        ensures
            cell@ == Sharing::<i64, ScalarBacking<AtomicIsize, i64>>::Unshared(value),
    {
        SharedI64 { data: Data::Single(value) }
    }

    /// Whether the cell has been promoted to shared storage. A promoted cell
    /// always has the backing that the backing rule asks for.
    pub fn is_shared(&self) -> (shared: bool)
        ensures
            shared == self@.is_shared(),
            self@ matches Sharing::Shared(backing) ==> Self::rule_allows(backing),
    {
        proof {
            use_type_invariant(self);
        }
        match &self.data {
            Data::Single(_) => false,
            Data::Multiple(_) => true,
        }
    }

    /// Writes `val`: in place on an unshared cell, through to the shared
    /// storage otherwise. The representation never changes. A cell has a
    /// word for its backing only where the word is wide enough, so the word
    /// that is stored is `val` whole.
    pub fn set(&mut self, val: i64)
        ensures
            final(self)@ == old(self)@.after_set(val),
    {
        match &self.data {
            Data::Single(_) => {
                self.data = Data::Single(val);
            },
            Data::Multiple(ScalarBacking::Word(mem)) => {
                let word = word_of_i64(val);
                proof {
                    use_type_invariant(&*self);
                    assert(word as int == val as int);
                }
                store_isize(mem, word);
            },
            Data::Multiple(ScalarBacking::Locked(mem)) => {
                write_locked(mem, val);
            },
        }
    }

    /// Reads the value. An unshared cell gives the value it owns. A shared
    /// cell gives what one atomic load, or one read under the lock, found.
    pub fn get(&self) -> (val: i64)
        ensures
            self@.local() matches Some(v) ==> val == v,
    {
        match &self.data {
            Data::Single(val) => *val,
            Data::Multiple(ScalarBacking::Word(mem)) => i64_of_word(load_isize(mem)),
            Data::Multiple(ScalarBacking::Locked(mem)) => read_locked(mem),
        }
    }

    /// Makes a second handle to the value. An unshared receiver is promoted:
    /// a backing of the kind that the backing rule asks for is made from its
    /// value, and the receiver and the new handle both refer to it. A shared
    /// receiver is left as it is, and the new handle refers to its backing.
    pub fn dup(&mut self) -> (twin: SharedI64)
        ensures
            old(self)@.duplicates_to(final(self)@, twin@),
            twin@ matches Sharing::Shared(backing) && Self::rule_allows(backing),
    {
        proof {
            use_type_invariant(&*self);
        }
        let val = match &self.data {
            Data::Multiple(backing) => {
                return SharedI64 { data: Data::Multiple(backing.share()) };
            },
            Data::Single(val) => *val,
        };
        let backing = if atomic_backing_for(Self::BITS) {
            ScalarBacking::Word(Arc::new(AtomicIsize::new(word_of_i64(val))))
        } else {
            ScalarBacking::Locked(Arc::new(Mutex::new(val)))
        };
        self.data = Data::Multiple(backing.share());
        SharedI64 { data: Data::Multiple(backing) }
    }
}

} // verus!
