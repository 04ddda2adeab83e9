//! Reporting how much heap memory a value occupies.

use vstd::prelude::*;

verus! {

/// A value that can report the heap memory it occupies.
pub trait MemoryConsumption {
    /// The count that this value reports.
    ///
    /// An implementation says here what it counts: the heap memory behind the value's own
    /// representation, plus what each owned child reports; zero where nothing lies on the heap.
    /// As given, the count is left open.
    open spec fn consumption(&self) -> usize {
        vstd::pervasive::arbitrary()
    }

    /// The heap memory that the value occupies, in bytes, that of its owned children included.
    ///
    /// The count depends on the value alone: as long as the value does not change, neither
    /// does the count.
    fn memory_consumption(&self) -> (bytes: usize)
        ensures
            bytes == self.consumption(),
    ;
}

/// Two reports on the same value give the same count.
pub proof fn lemma_memory_consumption_is_stable<T: MemoryConsumption>(
    value: &T,
    first: usize,
    second: usize,
)
    requires
        call_ensures(T::memory_consumption, (value,), first),
        call_ensures(T::memory_consumption, (value,), second),
    ensures
        first == second,
{
}

} // verus!
