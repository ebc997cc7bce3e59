//! The sets of codes that a virtual device advertises, as evdev keeps them.

use vstd::prelude::*;

use crate::input::{KEY_CNT, REL_CNT};

verus! {

/// Whether a list of codes is strictly increasing.
pub open spec fn increasing(codes: Seq<u16>) -> bool {
    forall|i: int, j: int| 0 <= i < j < codes.len() ==> codes[i] < codes[j]
}

/// Whether a list of codes is that of a set: each of its codes once, from the
/// lowest up.
pub open spec fn lists(codes: Seq<u16>, set: Set<u16>) -> bool {
    increasing(codes) && codes.to_set() == set
}

/// A set of key codes: an `evdev::AttributeSet<evdev::Key>`.
#[verifier::external_body]
pub struct KeySet {
    set: evdev::AttributeSet<evdev::Key>,
}

/// The codes of the keys in a set.
pub uninterp spec fn key_set_codes(set: KeySet) -> Set<u16>;

/// `evdev::AttributeSet::<evdev::Key>::new`: the new set holds no key.
#[verifier::external_body]
pub(crate) fn new_key_set() -> (set: KeySet)
    ensures
        key_set_codes(set) == Set::<u16>::empty(),
{
    KeySet { set: evdev::AttributeSet::new() }
}

/// `evdev::AttributeSetRef::<evdev::Key>::insert`: the set then also holds the
/// key with the given code, and otherwise what it held. The set has one bit
/// for each code below `KEY_CNT`; a code beyond them makes the call panic.
#[verifier::external_body]
pub(crate) fn insert_key(set: &mut KeySet, code: u16)
    requires
        code < KEY_CNT,
    ensures
        key_set_codes(*final(set)) == key_set_codes(*old(set)).insert(code),
{
    set.set.insert(evdev::Key::new(code))
}

/// `evdev::AttributeSetRef::<evdev::Key>::iter`: the keys of the set, each
/// once, in the order of their codes.
#[verifier::external_body]
pub(crate) fn key_set_list(set: &KeySet) -> (codes: Vec<u16>)
    ensures
        lists(codes@, key_set_codes(*set)),
{
    set.set.iter().map(|key| key.code()).collect()
}

/// A set of relative axes: an `evdev::AttributeSet<evdev::RelativeAxisType>`.
#[verifier::external_body]
pub struct RelativeAxisSet {
    set: evdev::AttributeSet<evdev::RelativeAxisType>,
}

/// The codes of the axes in a set.
pub uninterp spec fn axis_set_codes(set: RelativeAxisSet) -> Set<u16>;

/// `evdev::AttributeSet::<evdev::RelativeAxisType>::new`: the new set holds no
/// axis.
#[verifier::external_body]
pub(crate) fn new_axis_set() -> (set: RelativeAxisSet)
    ensures
        axis_set_codes(set) == Set::<u16>::empty(),
{
    RelativeAxisSet { set: evdev::AttributeSet::new() }
}

/// `evdev::AttributeSetRef::<evdev::RelativeAxisType>::insert`: the set then
/// also holds the axis with the given code, and otherwise what it held. The
/// set has one bit for each code below `REL_CNT`; a code beyond them makes the
/// call panic.
#[verifier::external_body]
pub(crate) fn insert_axis(set: &mut RelativeAxisSet, code: u16)
    requires
        code < REL_CNT,
    ensures
        axis_set_codes(*final(set)) == axis_set_codes(*old(set)).insert(code),
{
    set.set.insert(evdev::RelativeAxisType(code))
}

/// `evdev::AttributeSetRef::<evdev::RelativeAxisType>::iter`: the axes of the
/// set, each once, in the order of their codes.
#[verifier::external_body]
pub(crate) fn axis_set_list(set: &RelativeAxisSet) -> (codes: Vec<u16>)
    ensures
        lists(codes@, axis_set_codes(*set)),
{
    set.set.iter().map(|axis| axis.0).collect()
}

} // verus!
