//! Keys, the actions they stand for, and which of them are held.

use vstd::prelude::*;

verus! {

/// What a key makes the player do.
#[derive(Clone, Copy, Debug, PartialEq, Eq, Hash)]
pub enum Action {
    MoveLeft,
    MoveRight,
    Jump,
}

/// Which actions have their key held down.
#[derive(Clone, Copy, Debug, PartialEq, Eq, Hash)]
pub struct KeyState {
    pub left: bool,
    pub right: bool,
    pub jump: bool,
}

/// The action bound to a key identifier: `"ArrowLeft"`, `"ArrowRight"` and a
/// single space are bound, every other identifier is not.
pub open spec fn action_for_key(key: Seq<char>) -> Option<Action> {
    if key == "ArrowLeft"@ {
        Some(Action::MoveLeft)
    } else if key == "ArrowRight"@ {
        Some(Action::MoveRight)
    } else if key == " "@ {
        Some(Action::Jump)
    } else {
        None
    }
}

/// The key state `keys` with the flag of `action` set to `held`.
pub open spec fn with_action(keys: KeyState, action: Action, held: bool) -> KeyState {
    match action {
        Action::MoveLeft => KeyState { left: held, ..keys },
        Action::MoveRight => KeyState { right: held, ..keys },
        Action::Jump => KeyState { jump: held, ..keys },
    }
}

/// The key state after the key `key` went down (`held`) or up (`!held`).
/// A key that is bound to no action changes nothing.
pub open spec fn with_key(keys: KeyState, key: Seq<char>, held: bool) -> KeyState {
    match action_for_key(key) {
        Some(action) => with_action(keys, action, held),
        None => keys,
    }
}

/// Whether two strings hold the same characters.
pub fn same_text(a: &str, b: &str) -> (same: bool)
    ensures
        same == (a@ == b@),
{
    let n: usize = a.unicode_len();
    if n != b.unicode_len() {
        return false;
    }
    let mut i: usize = 0;
    while i < n
        invariant
            i <= n,
            n == a@.len(),
            n == b@.len(),
            forall|j: int| 0 <= j < i ==> a@[j] == b@[j],
        decreases n - i,
    {
        if a.get_char(i) != b.get_char(i) {
            return false;
        }
        i += 1;
    }
    assert(a@ =~= b@);
    true
}

impl Action {
    /// Looks up the action bound to a key identifier.
    pub fn from_key(key: &str) -> (action: Option<Action>)
        ensures
            action == action_for_key(key@),
    {
        if same_text(key, "ArrowLeft") {
            Some(Action::MoveLeft)
        } else if same_text(key, "ArrowRight") {
            Some(Action::MoveRight)
        } else if same_text(key, " ") {
            Some(Action::Jump)
        } else {
            None
        }
    }
}

impl KeyState {
    /// No key held.
    pub fn new() -> (keys: KeyState)
        ensures
            keys == (KeyState { left: false, right: false, jump: false }),
    {
        KeyState { left: false, right: false, jump: false }
    }

    /// Records that the key of `action` is held (`held`) or not.
    pub fn set(&mut self, action: Action, held: bool)
        ensures
            *final(self) == with_action(*old(self), action, held),
    {
        match action {
            Action::MoveLeft => {
                self.left = held;
            },
            Action::MoveRight => {
                self.right = held;
            },
            Action::Jump => {
                self.jump = held;
            },
        }
    }
}

} // verus!
