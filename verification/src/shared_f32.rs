//! A shareable single-width float, carried as its 32-bit pattern.
use crate::backing::load_usize;
use crate::backing::share;
use crate::backing::store_usize;
use crate::lineage::Sharing;
use crate::word::u32_of_word;
use crate::word::lemma_native_word_holds_narrow;
use crate::word::word_holds;
use crate::word::word_of_u32;
use std::sync::atomic::AtomicUsize;
use std::sync::Arc;
use vstd::prelude::*;

verus! {

/// How the value is held.
enum Data {
    /// There is only one handle to the value.
    Single(u32),
    /// There are, or there were, several handles to the value.
    Multiple(Arc<AtomicUsize>),
}

/// Shareable cell for a single-width float.
///
/// The cell takes and gives the float's exact bit pattern, sign, exponent
/// and every payload bit, as a `u32`. While there is one handle, the pattern
/// is a plain field. From the first duplication on it lives in an atomic
/// word that all handles of the lineage share, so the handles can be used
/// from several threads.
pub struct SharedF32 {
    data: Data,
}

impl View for SharedF32 {
    type V = Sharing<u32, Arc<AtomicUsize>>;

    closed spec fn view(&self) -> Self::V {
        match self.data {
            Data::Single(v) => Sharing::Unshared(v),
            Data::Multiple(mem) => Sharing::Shared(mem),
        }
    }
}

impl SharedF32 {
    /// The width of the value in bits.
    pub const BITS: u32 = 32;

    /// Makes an unshared cell that holds `value`.
    pub fn new(value: u32) -> (cell: SharedF32)
        ensures
            cell@ == Sharing::<u32, Arc<AtomicUsize>>::Unshared(value),
    {
        SharedF32 { data: Data::Single(value) }
    }

    /// Whether the cell has been promoted to shared storage.
    pub fn is_shared(&self) -> (shared: bool)
        ensures
            shared == self@.is_shared(),
    {
        match &self.data {
            Data::Single(_) => false,
            Data::Multiple(_) => true,
        }
    }

    /// Writes `val`: in place on an unshared cell, through to the shared
    /// word otherwise. The representation never changes.
    pub fn set(&mut self, val: u32)
        ensures
            final(self)@ == old(self)@.after_set(val),
    {
        match &self.data {
            Data::Single(_) => {
                self.data = Data::Single(val);
            },
            Data::Multiple(mem) => {
                store_usize(mem, word_of_u32(val));
            },
        }
    }

    /// Reads the value. An unshared cell gives the value it owns. A shared
    /// cell gives the low 32 bits of the word that one atomic load found.
    pub fn get(&self) -> (val: u32)
        ensures
            self@.local() matches Some(v) ==> val == v,
    {
        match &self.data {
            Data::Single(val) => *val,
            Data::Multiple(mem) => u32_of_word(load_usize(mem)),
        }
    }

    /// Makes a second handle to the value. An unshared receiver is promoted:
    /// an atomic word, which every platform has wide enough for this value,
    /// is made from its value, and the receiver and the new handle both
    /// refer to it. A shared receiver is left as it is, and the new
    /// handle refers to its backing.
    pub fn dup(&mut self) -> (twin: SharedF32)
        ensures
            old(self)@.duplicates_to(final(self)@, twin@),
    {
        let val = match &self.data {
            Data::Multiple(mem) => {
                return SharedF32 { data: Data::Multiple(share(mem)) };
            },
            Data::Single(val) => *val,
        };
        proof {
            lemma_native_word_holds_narrow();
            assert(word_holds(usize::BITS as int, Self::BITS as int));
        }
        let data = Arc::new(AtomicUsize::new(word_of_u32(val)));
        self.data = Data::Multiple(share(&data));
        SharedF32 { data: Data::Multiple(data) }
    }
}

} // verus!
