//! What the tablet's own controls do.

use vstd::prelude::*;

use crate::input::Key;

verus! {

/// What a tablet control does when it is triggered.
pub enum Action {
    /// A keyboard chord: the keys follow the control, in their order.
    Keys(Vec<Key>),
    /// One notch of the wheel, with `modifiers` held around it. A `delta` of
    /// `1` is up, away from the user; `-1` is down.
    Wheel { modifiers: Vec<Key>, delta: i32 },
}

/// What an [`Action`] stands for.
pub enum ActionModel {
    Keys(Seq<Key>),
    Wheel { modifiers: Seq<Key>, delta: i32 },
}

impl View for Action {
    type V = ActionModel;

    open spec fn view(&self) -> ActionModel {
        match self {
            Action::Keys(keys) => ActionModel::Keys(keys@),
            Action::Wheel { modifiers, delta } => ActionModel::Wheel {
                modifiers: modifiers@,
                delta: *delta,
            },
        }
    }
}

/// A copy of a run of keys.
pub fn copy_keys(keys: &Vec<Key>) -> (copy: Vec<Key>)
    ensures
        copy@ == keys@,
{
    let mut copy: Vec<Key> = Vec::new();
    for i in 0..keys.len()
        invariant
            copy@ == keys@.take(i as int),
    {
        copy.push(keys[i]);
    }
    copy
}

impl Clone for Action {
    fn clone(&self) -> (copy: Action)
        ensures
            copy@ == self@,
    {
        match self {
            Action::Keys(keys) => Action::Keys(copy_keys(keys)),
            Action::Wheel { modifiers, delta } => Action::Wheel {
                modifiers: copy_keys(modifiers),
                delta: *delta,
            },
        }
    }
}

/// An action stands for itself: for its keys in their order, and for its notch.
pub proof fn law_action_stands_for_itself(keys: Vec<Key>, delta: i32)
    ensures
        Action::Keys(keys)@ == ActionModel::Keys(keys@),
        (Action::Wheel { modifiers: keys, delta })@ == (ActionModel::Wheel {
            modifiers: keys@,
            delta,
        }),
{
}

/// A copy is as good as what was copied.
pub proof fn law_copies_are_alike(keys: Vec<Key>, copy: Vec<Key>, action: Action, other: Action)
    requires
        call_ensures(copy_keys, (&keys,), copy),
        call_ensures(Action::clone, (&action,), other),
    ensures
        copy@ == keys@,
        other@ == action@,
{
}

} // verus!
