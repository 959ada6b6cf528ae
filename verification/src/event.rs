//! The event record: the unit of both registration and notification, and the
//! builder that fills one in place. The field order and widths follow the
//! kernel's native structure on the Darwin family (identifier, filter,
//! control flags, note flags, data, correlation tag); the hosting program
//! reinterprets records in that layout at the call boundary.

use vstd::prelude::*;

use crate::filter::EventFilter;
use crate::flags::EventFlag;
use crate::flags::FilterFlag;

verus! {

/// One event record. `ident` is interpreted per `filter` (a descriptor, a
/// process id, a signal number); `data` is a filter-dependent result slot
/// that registration leaves at zero; `udata` is an opaque tag the kernel
/// round-trips unchanged, for correlating notifications with registrations.
#[derive(Clone, Copy, Debug, PartialEq, Eq, Structural)]
pub struct KEvent {
    pub ident: usize,
    pub filter: EventFilter,
    pub flags: EventFlag,
    pub fflags: FilterFlag,
    pub data: isize,
    pub udata: usize,
}

/// Fills every field of an existing record from the given arguments,
/// whatever the record held before: the typed arguments are stored verbatim
/// and `data` is reset to zero, since a registration never carries a result.
/// No filter/flag combination is rejected here; an invalid one surfaces only
/// as a kernel-level error at submit time.
pub fn ev_set(
    ev: &mut KEvent,
    ident: usize,
    filter: EventFilter,
    flags: EventFlag,
    fflags: FilterFlag,
    udata: usize,
)
    ensures
        final(ev).ident == ident,
        final(ev).filter == filter,
        final(ev).flags == flags,
        final(ev).fflags == fflags,
        final(ev).data == 0,
        final(ev).udata == udata,
{
    ev.ident = ident;
    ev.filter = filter;
    ev.flags = flags;
    ev.fflags = fflags;
    ev.data = 0;
    ev.udata = udata;
}

} // verus!
