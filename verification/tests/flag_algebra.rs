use kqueue::EventFlag;
use kqueue::FilterFlag;
use kqueue::flags::EV_ADD;
use kqueue::flags::EV_CLEAR;
use kqueue::flags::EV_DELETE;
use kqueue::flags::EV_DISABLE;
use kqueue::flags::EV_DISPATCH;
use kqueue::flags::EV_ENABLE;
use kqueue::flags::EV_EOF;
use kqueue::flags::EV_ERROR;
use kqueue::flags::EV_ONESHOT;
use kqueue::flags::EV_RECEIPT;
use kqueue::flags::EV_SYSFLAGS;
use kqueue::flags::NOTE_ATTRIB;
use kqueue::flags::NOTE_DELETE;
use kqueue::flags::NOTE_EXIT;
use kqueue::flags::NOTE_FFCOPY;
use kqueue::flags::NOTE_FFNOP;
use kqueue::flags::NOTE_TRIGGER;
use kqueue::flags::NOTE_WRITE;

#[test]
fn control_flag_values_match_the_kernel() {
    assert_eq!(EV_ADD, 0x1);
    assert_eq!(EV_DELETE, 0x2);
    assert_eq!(EV_ENABLE, 0x4);
    assert_eq!(EV_DISABLE, 0x8);
    assert_eq!(EV_ONESHOT, 0x10);
    assert_eq!(EV_CLEAR, 0x20);
    assert_eq!(EV_RECEIPT, 0x40);
    assert_eq!(EV_DISPATCH, 0x80);
    assert_eq!(EV_ERROR, 0x4000);
    assert_eq!(EV_EOF, 0x8000);
    assert_eq!(EV_SYSFLAGS, 0xf000);
}

#[test]
fn note_flag_values_match_the_kernel() {
    assert_eq!(NOTE_DELETE, 0x1);
    assert_eq!(NOTE_WRITE, 0x2);
    assert_eq!(NOTE_ATTRIB, 0x8);
    assert_eq!(NOTE_EXIT, 0x8000_0000);
    assert_eq!(NOTE_TRIGGER, 0x0100_0000);
    assert_eq!(NOTE_FFNOP, 0);
    assert_eq!(NOTE_FFCOPY, 0xc000_0000);
}

#[test]
fn control_flag_union_is_commutative() {
    let a = EventFlag::from_bits(EV_ADD | EV_CLEAR);
    let b = EventFlag::from_bits(EV_ONESHOT);
    assert_eq!(a.union(b), b.union(a));
}

#[test]
fn control_flag_union_is_associative() {
    let a = EventFlag::from_bits(EV_ADD);
    let b = EventFlag::from_bits(EV_DELETE);
    let c = EventFlag::from_bits(EV_EOF | EV_ERROR);
    assert_eq!(a.union(b).union(c), a.union(b.union(c)));
}

#[test]
fn control_flag_empty_is_union_identity() {
    let a = EventFlag::from_bits(EV_RECEIPT | EV_DISPATCH);
    assert_eq!(a.union(EventFlag::empty()), a);
    assert_eq!(EventFlag::empty().union(a), a);
}

#[test]
fn control_flag_containment_is_bit_subset() {
    let a = EventFlag::from_bits(EV_ADD | EV_ENABLE | EV_ONESHOT);
    let b = EventFlag::from_bits(EV_ADD | EV_ONESHOT);
    let c = EventFlag::from_bits(EV_ADD | EV_DELETE);
    assert!(a.contains(b));
    assert!(!a.contains(c));
    assert!(a.contains(EventFlag::empty()));
    assert_eq!(a.intersect(b), b);
    assert_eq!(a.intersect(c).bits(), EV_ADD);
}

#[test]
fn note_flag_union_is_commutative() {
    let a = FilterFlag::from_bits(NOTE_DELETE | NOTE_WRITE);
    let b = FilterFlag::from_bits(NOTE_EXIT);
    assert_eq!(a.union(b), b.union(a));
}

#[test]
fn note_flag_union_is_associative() {
    let a = FilterFlag::from_bits(NOTE_DELETE);
    let b = FilterFlag::from_bits(NOTE_ATTRIB);
    let c = FilterFlag::from_bits(NOTE_TRIGGER);
    assert_eq!(a.union(b).union(c), a.union(b.union(c)));
}

#[test]
fn note_flag_empty_is_union_identity() {
    let a = FilterFlag::from_bits(NOTE_EXIT | NOTE_WRITE);
    assert_eq!(a.union(FilterFlag::empty()), a);
    assert_eq!(FilterFlag::empty().union(a), a);
}

#[test]
fn note_flag_containment_is_bit_subset() {
    let a = FilterFlag::from_bits(NOTE_DELETE | NOTE_WRITE | NOTE_ATTRIB);
    let b = FilterFlag::from_bits(NOTE_WRITE);
    let c = FilterFlag::from_bits(NOTE_EXIT);
    assert!(a.contains(b));
    assert!(!a.contains(c));
    assert!(a.contains(FilterFlag::empty()));
    assert_eq!(a.intersect(b), b);
    assert_eq!(a.intersect(c).bits(), 0);
}
