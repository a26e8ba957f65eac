//! Value containers that start out unshared, with no synchronisation at all,
//! and switch to a thread-safe shared backing the first time a second handle
//! to the same value is made.
//!
//! A scalar cell is backed by one atomic machine word where the word is wide
//! enough for the value's bit pattern, and by a mutex otherwise. An object
//! cell keeps a reference-counted snapshot of its value behind a mutex.
//! Floats are carried as their exact bit patterns.
//!
//! The contracts say what each handle is: unshared with its value, or shared
//! on a backing, and that duplication never makes a second backing for one
//! lineage. They do not say what a read of a shared backing returns: that is
//! the last value stored by any handle of the lineage, on any thread.
//!
//! A mutex that a failed holder left poisoned is used all the same: a value
//! behind it is only ever replaced whole.
pub mod backing;
pub mod lineage;
pub mod shared_f32;
pub mod shared_f64;
pub mod shared_i64;
pub mod shared_i8;
pub mod shared_object;
pub mod word;

pub use backing::ScalarBacking;
pub use lineage::Sharing;
pub use shared_f32::SharedF32;
pub use shared_f64::SharedF64;
pub use shared_i64::SharedI64;
pub use shared_i8::SharedI8;
pub use shared_object::SharedObject;
