use kqueue::EventFilter;
use kqueue::EventFlag;
use kqueue::FilterFlag;
use kqueue::KEvent;
use kqueue::ev_set;
use kqueue::flags::EV_ADD;
use kqueue::flags::EV_ONESHOT;
use kqueue::flags::NOTE_WRITE;

#[test]
fn build_zeroes_data_and_round_trips_fields() {
    // Start from a record full of junk: the builder must overwrite all of it.
    let mut ev = KEvent {
        ident: usize::MAX,
        filter: EventFilter::EVFILT_SIGNAL,
        flags: EventFlag::from_bits(0xffff),
        fflags: FilterFlag::from_bits(0xffff_ffff),
        data: -42,
        udata: 0xdead,
    };
    ev_set(
        &mut ev,
        7,
        EventFilter::EVFILT_READ,
        EventFlag::from_bits(EV_ADD | EV_ONESHOT),
        FilterFlag::from_bits(NOTE_WRITE),
        12345,
    );
    assert_eq!(ev.ident, 7);
    assert_eq!(ev.filter, EventFilter::EVFILT_READ);
    assert_eq!(ev.flags.bits(), EV_ADD | EV_ONESHOT);
    assert_eq!(ev.fflags.bits(), NOTE_WRITE);
    assert_eq!(ev.data, 0);
    assert_eq!(ev.udata, 12345);
}

#[test]
fn build_is_idempotent() {
    let mut a = KEvent {
        ident: 0,
        filter: EventFilter::EVFILT_READ,
        flags: EventFlag::empty(),
        fflags: FilterFlag::empty(),
        data: 0,
        udata: 0,
    };
    let mut b = a;
    ev_set(&mut a, 3, EventFilter::EVFILT_TIMER, EventFlag::from_bits(EV_ADD), FilterFlag::empty(), 9);
    ev_set(&mut b, 3, EventFilter::EVFILT_TIMER, EventFlag::from_bits(EV_ADD), FilterFlag::empty(), 9);
    ev_set(&mut b, 3, EventFilter::EVFILT_TIMER, EventFlag::from_bits(EV_ADD), FilterFlag::empty(), 9);
    assert_eq!(a, b);
}
