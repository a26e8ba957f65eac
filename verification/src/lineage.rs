//! The promotion protocol as a mathematical model.
//!
//! A handle is either unshared, owning its value, or shared, referring to a
//! backing. Two shared handles belong to one lineage exactly when they refer
//! to the same backing. What a backing holds at a given moment is decided by
//! every handle of its lineage, on any thread, and is not part of a handle:
//! the model says which handle reads and writes where, never what a shared
//! read returns.
use vstd::prelude::*;

verus! {

/// What a handle is: `V` is the value type, `B` the backing type.
pub enum Sharing<V, B> {
    /// The handle owns its value; nothing else can see it.
    Unshared(V),
    /// The handle refers to a backing; reads and writes go through it.
    Shared(B),
}

impl<V, B> Sharing<V, B> {
    /// Whether the handle has been promoted.
    pub open spec fn is_shared(self) -> bool {
        self is Shared
    }

    /// The value that an unshared handle owns.
    pub open spec fn local(self) -> Option<V> {
        match self {
            Sharing::Unshared(v) => Some(v),
            Sharing::Shared(_) => None,
        }
    }

    /// The backing that a shared handle refers to.
    pub open spec fn backing(self) -> Option<B> {
        match self {
            Sharing::Unshared(_) => None,
            Sharing::Shared(b) => Some(b),
        }
    }

    /// The handle after a write of `v`: an unshared handle owns `v`; a shared
    /// handle is what it was, the write having gone to its backing.
    pub open spec fn after_set(self, v: V) -> Self {
        match self {
            Sharing::Unshared(_) => Sharing::Unshared(v),
            Sharing::Shared(b) => Sharing::Shared(b),
        }
    }

    /// Whether `after` and `twin` can be the receiver and the new handle
    /// that a duplication of `self` leaves: both are shared, both refer to
    /// one backing, and a receiver that was shared before keeps its backing.
    pub open spec fn duplicates_to(self, after: Self, twin: Self) -> bool {
        &&& after is Shared
        &&& twin == after
        &&& self is Shared ==> after == self
    }

    /// Whether two handles belong to one promoted lineage.
    pub open spec fn same_lineage(self, other: Self) -> bool {
        self is Shared && other == self
    }
}

/// A new cell read at once gives the value it was made with.
pub proof fn lemma_new_then_get<V, B>(v: V)
    ensures
        Sharing::<V, B>::Unshared(v).local() == Some(v),
{
}

/// A write to an unshared handle is what the same handle reads next, and
/// the handle stays unshared.
pub proof fn lemma_set_then_get<V, B>(h: Sharing<V, B>, v: V)
    requires
        !h.is_shared(),
    ensures
        h.after_set(v).local() == Some(v),
        !h.after_set(v).is_shared(),
{
}

/// A write never changes whether a handle is shared, nor which backing a
/// shared handle refers to; of two writes in a row, the later one decides
/// what the handle is.
pub proof fn lemma_set_keeps_representation<V, B>(h: Sharing<V, B>, v: V, w: V)
    ensures
        h.after_set(v).is_shared() == h.is_shared(),
        h.is_shared() ==> h.after_set(v) == h,
        h.after_set(v).after_set(w) == h.after_set(w),
{
}

/// Right after a duplication the new handle and the receiver refer to one
/// backing, so they read the same storage.
pub proof fn lemma_dup_shares_backing<V, B>(
    before: Sharing<V, B>,
    after: Sharing<V, B>,
    twin: Sharing<V, B>,
)
    requires
        before.duplicates_to(after, twin),
    ensures
        after.same_lineage(twin),
        twin.same_lineage(after),
        twin.backing() == after.backing(),
        twin.backing() is Some,
{
}

/// Chained duplication makes exactly one backing: when a handle is
/// duplicated and the new handle is duplicated in turn, all three handles
/// refer to the backing that the first duplication left.
pub proof fn lemma_chained_dup_one_backing<V, B>(
    h1_before: Sharing<V, B>,
    h1: Sharing<V, B>,
    h2: Sharing<V, B>,
    h2_after: Sharing<V, B>,
    h3: Sharing<V, B>,
)
    requires
        h1_before.duplicates_to(h1, h2),
        h2.duplicates_to(h2_after, h3),
    ensures
        h2_after == h2,
        h1.same_lineage(h2),
        h1.same_lineage(h3),
        h2.same_lineage(h3),
{
}

/// Duplicating the receiver again, instead of the new handle, makes no new
/// backing either.
pub proof fn lemma_repeated_dup_one_backing<V, B>(
    h1_before: Sharing<V, B>,
    h1: Sharing<V, B>,
    h2: Sharing<V, B>,
    h1_after: Sharing<V, B>,
    h3: Sharing<V, B>,
)
    requires
        h1_before.duplicates_to(h1, h2),
        h1.duplicates_to(h1_after, h3),
    ensures
        h1_after == h1,
        h1.same_lineage(h2),
        h1.same_lineage(h3),
{
}

/// Promotion happens once and is final: a shared handle stays shared, on
/// its backing, through every write and every duplication.
pub proof fn lemma_promotion_is_final<V, B>(
    h: Sharing<V, B>,
    v: V,
    after: Sharing<V, B>,
    twin: Sharing<V, B>,
)
    requires
        h.is_shared(),
        h.duplicates_to(after, twin),
    ensures
        h.after_set(v) == h,
        after == h,
        twin == h,
{
}

/// Two cells made independently share nothing before a duplication: each
/// is unshared, so each reads its own value, and a write to one is a change
/// of that one alone.
pub proof fn lemma_unshared_cells_independent<V, B>(v: V, w: V)
    ensures
        ({
            let a = Sharing::<V, B>::Unshared(v);
            let b = Sharing::<V, B>::Unshared(v);
            &&& a.after_set(w).local() == Some(w)
            &&& b.local() == Some(v)
            &&& !a.after_set(w).same_lineage(b)
            &&& !b.same_lineage(a.after_set(w))
        }),
{
}

} // verus!
