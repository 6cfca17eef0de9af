//! The decisions of the platform's panic handler: report a panic once,
//! and stop at once when a panic arrives while one is being reported.

use vstd::prelude::*;

verus! {

/// What the panic handler does on entry.
#[derive(Debug, Clone, Copy, PartialEq, Eq)]
pub enum PanicEntry {
    /// No panic is in progress: report this one.
    Report,
    /// A panic is already being reported: stop without reporting.
    Halt,
}

/// The entry decision: report unless a panic is in progress; either way
/// a panic is in progress afterwards.
pub open spec fn spec_panic_entry(in_progress: bool) -> (PanicEntry, bool) {
    (if in_progress { PanicEntry::Halt } else { PanicEntry::Report }, true)
}

/// The panic handler's entry decision, from the "panic in progress" flag:
/// what to do, and the flag's next value.
pub fn panic_entry(in_progress: bool) -> (r: (PanicEntry, bool))
    ensures
        r == spec_panic_entry(in_progress),
{
    if !in_progress {
        (PanicEntry::Report, true)
    } else {
        (PanicEntry::Halt, true)
    }
}

/// Where a panic happened, as file, line and column; `("???", 0, 0)` when
/// the location is unknown.
pub fn panic_location<'a>(location: Option<(&'a str, u32, u32)>) -> (r: (&'a str, u32, u32))
    ensures
        r == (match location {
            Some(loc) => loc,
            None => ("???", 0u32, 0u32),
        }),
{
    match location {
        Some(loc) => loc,
        _ => ("???", 0, 0),
    }
}

/// A panic is reported at most once: whatever the flag was, after one
/// entry the next entry halts.
pub proof fn lemma_second_panic_halts(in_progress: bool)
    ensures
        spec_panic_entry(spec_panic_entry(in_progress).1).0 == PanicEntry::Halt,
{
}

} // verus!
