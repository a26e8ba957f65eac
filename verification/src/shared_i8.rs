//! A shareable `i8`.
use crate::backing::load_isize;
use crate::backing::share;
use crate::backing::store_isize;
use crate::lineage::Sharing;
use crate::word::i8_of_word;
use crate::word::lemma_native_word_holds_narrow;
use crate::word::word_holds;
use crate::word::word_of_i8;
use std::sync::atomic::AtomicIsize;
use std::sync::Arc;
use vstd::prelude::*;

verus! {

/// How the value is held.
enum Data {
    /// There is only one handle to the value.
    Single(i8),
    /// There are, or there were, several handles to the value.
    Multiple(Arc<AtomicIsize>),
}

/// Shareable `i8` cell.
///
/// While there is one handle, the value is a plain field. From the first
/// duplication on it lives in an atomic word that all handles of the lineage
/// share, so the handles can be used from several threads.
pub struct SharedI8 {
    data: Data,
}

impl View for SharedI8 {
    type V = Sharing<i8, Arc<AtomicIsize>>;

    closed spec fn view(&self) -> Self::V {
        match self.data {
            Data::Single(v) => Sharing::Unshared(v),
            Data::Multiple(mem) => Sharing::Shared(mem),
        }
    }
}

impl SharedI8 {
    /// The width of the value in bits.
    pub const BITS: u32 = 8;

    /// Makes an unshared cell that holds `value`.
    pub fn new(value: i8) -> (cell: SharedI8)
        ensures
            cell@ == Sharing::<i8, Arc<AtomicIsize>>::Unshared(value),
    {
        SharedI8 { data: Data::Single(value) }
    }

    /// Whether the cell has been promoted to shared storage.
    pub fn is_shared(&self) -> (shared: bool)
        ensures
            shared == self@.is_shared(),
    {
        match &self.data {
            Data::Single(_) => false,
            Data::Multiple(_) => true,
        }
    }

    /// Writes `val`: in place on an unshared cell, through to the shared
    /// word otherwise. The representation never changes.
    pub fn set(&mut self, val: i8)
        ensures
            final(self)@ == old(self)@.after_set(val),
    {
        match &self.data {
            Data::Single(_) => {
                self.data = Data::Single(val);
            },
            Data::Multiple(mem) => {
                store_isize(mem, word_of_i8(val));
            },
        }
    }

    /// Reads the value. An unshared cell gives the value it owns. A shared
    /// cell gives the low bits of the word that one atomic load found.
    pub fn get(&self) -> (val: i8)
        ensures
            self@.local() matches Some(v) ==> val == v,
    {
        match &self.data {
            Data::Single(val) => *val,
            Data::Multiple(mem) => i8_of_word(load_isize(mem)),
        }
    }

    /// Makes a second handle to the value. An unshared receiver is promoted:
    /// an atomic word, which every platform has wide enough for this value,
    /// is made from its value, and the receiver and the new handle both
    /// refer to it. A shared receiver is left as it is, and the new
    /// handle refers to its backing.
    pub fn dup(&mut self) -> (twin: SharedI8)
        ensures
            old(self)@.duplicates_to(final(self)@, twin@),
    {
        let val = match &self.data {
            Data::Multiple(mem) => {
                return SharedI8 { data: Data::Multiple(share(mem)) };
            },
            Data::Single(val) => *val,
        };
        proof {
            lemma_native_word_holds_narrow();
            assert(word_holds(isize::BITS as int, Self::BITS as int));
        }
        let data = Arc::new(AtomicIsize::new(word_of_i8(val)));
        self.data = Data::Multiple(share(&data));
        SharedI8 { data: Data::Multiple(data) }
    }
}

} // verus!
