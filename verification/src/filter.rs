//! The closed enumeration of filter kinds: which category of event source a
//! record concerns. On the Darwin family the kernel encodes a filter as a
//! signed 16-bit code; each variant carries exactly the native code, and no
//! value outside the set can be constructed.

use vstd::prelude::*;

verus! {

/// One event-source category. The member set and the raw codes are those of
/// the Darwin family.
#[allow(non_camel_case_types)]
#[derive(Clone, Copy, Debug, PartialEq, Eq, Structural)]
pub enum EventFilter {
    EVFILT_READ,
    EVFILT_WRITE,
    EVFILT_AIO,
    EVFILT_VNODE,
    EVFILT_PROC,
    EVFILT_SIGNAL,
    EVFILT_TIMER,
    EVFILT_MACHPORT,
    EVFILT_FS,
    EVFILT_USER,
    EVFILT_VM,
}

impl EventFilter {
    /// The kernel's signed 16-bit code for this filter.
    pub open spec fn spec_raw(self) -> i16 {
        match self {
            EventFilter::EVFILT_READ => -1i16,
            EventFilter::EVFILT_WRITE => -2i16,
            EventFilter::EVFILT_AIO => -3i16,
            EventFilter::EVFILT_VNODE => -4i16,
            EventFilter::EVFILT_PROC => -5i16,
            EventFilter::EVFILT_SIGNAL => -6i16,
            EventFilter::EVFILT_TIMER => -7i16,
            EventFilter::EVFILT_MACHPORT => -8i16,
            EventFilter::EVFILT_FS => -9i16,
            EventFilter::EVFILT_USER => -10i16,
            EventFilter::EVFILT_VM => -12i16,
        }
    }

    #[verifier::when_used_as_spec(spec_raw)]
    pub fn raw(self) -> (r: i16)
        ensures
            r == self.spec_raw(),
    {
        match self {
            EventFilter::EVFILT_READ => -1,
            EventFilter::EVFILT_WRITE => -2,
            EventFilter::EVFILT_AIO => -3,
            EventFilter::EVFILT_VNODE => -4,
            EventFilter::EVFILT_PROC => -5,
            EventFilter::EVFILT_SIGNAL => -6,
            EventFilter::EVFILT_TIMER => -7,
            EventFilter::EVFILT_MACHPORT => -8,
            EventFilter::EVFILT_FS => -9,
            EventFilter::EVFILT_USER => -10,
            EventFilter::EVFILT_VM => -12,
        }
    }
}

/// The filter carrying the given raw code, or `None` where no filter of
/// this family does.
pub open spec fn spec_filter_from_raw(raw: i16) -> Option<EventFilter> {
    if raw == -1i16 {
        Some(EventFilter::EVFILT_READ)
    } else if raw == -2i16 {
        Some(EventFilter::EVFILT_WRITE)
    } else if raw == -3i16 {
        Some(EventFilter::EVFILT_AIO)
    } else if raw == -4i16 {
        Some(EventFilter::EVFILT_VNODE)
    } else if raw == -5i16 {
        Some(EventFilter::EVFILT_PROC)
    } else if raw == -6i16 {
        Some(EventFilter::EVFILT_SIGNAL)
    } else if raw == -7i16 {
        Some(EventFilter::EVFILT_TIMER)
    } else if raw == -8i16 {
        Some(EventFilter::EVFILT_MACHPORT)
    } else if raw == -9i16 {
        Some(EventFilter::EVFILT_FS)
    } else if raw == -10i16 {
        Some(EventFilter::EVFILT_USER)
    } else if raw == -12i16 {
        Some(EventFilter::EVFILT_VM)
    } else {
        None
    }
}

/// The checked reinterpretation of a raw filter code, for values whose
/// provenance is the kernel itself: the unique filter with that code, or
/// `None` where no filter of this family carries it.
pub fn filter_from_raw(raw: i16) -> (r: Option<EventFilter>)
    ensures
        r == spec_filter_from_raw(raw),
        match r {
            Some(f) => f.spec_raw() == raw,
            None => forall|f: EventFilter| f.spec_raw() != raw,
        },
{
    match raw {
        -1 => Some(EventFilter::EVFILT_READ),
        -2 => Some(EventFilter::EVFILT_WRITE),
        -3 => Some(EventFilter::EVFILT_AIO),
        -4 => Some(EventFilter::EVFILT_VNODE),
        -5 => Some(EventFilter::EVFILT_PROC),
        -6 => Some(EventFilter::EVFILT_SIGNAL),
        -7 => Some(EventFilter::EVFILT_TIMER),
        -8 => Some(EventFilter::EVFILT_MACHPORT),
        -9 => Some(EventFilter::EVFILT_FS),
        -10 => Some(EventFilter::EVFILT_USER),
        -12 => Some(EventFilter::EVFILT_VM),
        _ => None,
    }
}

/// Distinct filters carry distinct raw codes: the raw code identifies the
/// filter.
pub proof fn lemma_filter_raw_injective(a: EventFilter, b: EventFilter)
    ensures
        a.spec_raw() == b.spec_raw() ==> a == b,
{
}

} // verus!
