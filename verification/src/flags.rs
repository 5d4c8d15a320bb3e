//! Flags that threads share.
//!
//! What a flag holds at some moment is for the threads to find out. What can be said is how a
//! flag started, what was written to it, and what a reading of it gave. Each of these facts is
//! gained only by making the call that it speaks of.
use std::sync::atomic::{AtomicBool, Ordering};
use std::sync::Arc;

use vstd::prelude::*;

verus! {

/// Whether `flag` was made with `value` in it.
pub open spec fn flag_starts(flag: Arc<AtomicBool>, value: bool) -> bool {
    call_ensures(AtomicBool::new, (value,), *flag)
}

/// Whether `value` is what a reading of `flag` can give. Other threads write to the flag, so
/// two readings may differ.
pub open spec fn flag_reads(flag: Arc<AtomicBool>, value: bool) -> bool {
    call_ensures(AtomicBool::load, (&*flag, Ordering::SeqCst), value)
}

/// Whether writing `true` to `flag` can end as it does. Nothing but making the write shows
/// this, so where it holds, the write has been made.
pub open spec fn flag_raised(flag: Arc<AtomicBool>) -> bool {
    call_ensures(AtomicBool::store, (&*flag, true, Ordering::SeqCst), ())
}

} // verus!
