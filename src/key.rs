use vstd::prelude::*;

verus! {

/// Key symbol of the lower-case letter q.
pub const KEYSYM_LOWER_Q: u64 = 0x71;

/// Key symbol of the upper-case letter Q.
pub const KEYSYM_UPPER_Q: u64 = 0x51;

/// A logical key, independent of the physical keyboard layout.
#[derive(Debug, Clone, Copy, PartialEq, Eq, Structural)]
pub enum Key {
    Q,
    /// A symbol with no named variant; it carries the symbol as received.
    Unrecognized(u64),
}

impl Key {
    /// The key that a key symbol stands for.
    pub open spec fn spec_from_keysym(keysym: u64) -> Key {
        if keysym == KEYSYM_LOWER_Q || keysym == KEYSYM_UPPER_Q {
            Key::Q
        } else {
            Key::Unrecognized(keysym)
        }
    }

    pub fn from_keysym(keysym: u64) -> (r: Key)
        ensures
            r == Key::spec_from_keysym(keysym),
    {
        if keysym == KEYSYM_LOWER_Q || keysym == KEYSYM_UPPER_Q {
            Key::Q
        } else {
            Key::Unrecognized(keysym)
        }
    }
}

} // verus!
