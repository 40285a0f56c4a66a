use vstd::prelude::*;

use crate::key::Key;

verus! {

/// Modifier-state bit of the shift keys.
pub const SHIFT_MASK: u32 = 0x1;

/// Modifier-state bit of the lock (caps lock) key.
pub const LOCK_MASK: u32 = 0x2;

/// Modifier-state bit of the control keys.
pub const CONTROL_MASK: u32 = 0x4;

/// Modifier-state bit of the first extra modifier, alt.
pub const MOD1_MASK: u32 = 0x8;

/// Modifier-state bit of the second extra modifier, num lock.
pub const MOD2_MASK: u32 = 0x10;

/// Modifier-state bit of the fourth extra modifier, super.
pub const MOD4_MASK: u32 = 0x40;

/// All the modifier-state bits that a key event reports.
pub const MODIFIER_BITS: u32 = 0x5f;

/// Keycodes of this protocol fit in one byte: the low bits of the wire field.
pub const KEYCODE_BITS: u32 = 0xff;

/// A key-press record as the display service delivers it.
#[derive(Debug, Clone, Copy, PartialEq, Eq, Structural)]
pub struct RawKeyEvent {
    /// The modifier and button state at the time of the event.
    pub state: u32,
    /// The physical keycode, in a field wider than a keycode.
    pub keycode: u32,
}

/// Why a keycode could not be resolved to a key symbol.
#[derive(Debug, Clone, Copy, PartialEq, Eq, Structural)]
pub struct ResolveError {
    /// The keycode that the service has no symbol for.
    pub keycode: u8,
}

/// A decoded key press: which modifiers were down, and which key.
#[derive(Debug, Clone, Copy, PartialEq, Eq, Structural)]
pub struct KeyEvent {
    pub is_alt_down: bool,
    pub is_super_down: bool,
    pub is_shift_down: bool,
    pub is_control_down: bool,
    pub is_num_lock: bool,
    pub is_lock: bool,
    pub key: Key,
}

/// Whether the modifier bit `m` is set in `state`.
pub open spec fn has_bit(state: u32, m: u32) -> bool {
    state & m > 0
}

impl RawKeyEvent {
    /// The one-byte keycode: the low eight bits of the wire field.
    pub open spec fn spec_keycode(self) -> u8 {
        (self.keycode & KEYCODE_BITS) as u8
    }

    pub fn keycode(&self) -> (r: u8)
        ensures
            r == self.spec_keycode(),
    {
        (self.keycode & KEYCODE_BITS) as u8
    }
}

impl KeyEvent {
    /// The key event that `raw` describes when its keycode stands for `keysym`.
    pub open spec fn spec_with_keysym(raw: RawKeyEvent, keysym: u64) -> KeyEvent {
        KeyEvent {
            is_alt_down: has_bit(raw.state, MOD1_MASK),
            is_super_down: has_bit(raw.state, MOD4_MASK),
            is_shift_down: has_bit(raw.state, SHIFT_MASK),
            is_control_down: has_bit(raw.state, CONTROL_MASK),
            is_num_lock: has_bit(raw.state, MOD2_MASK),
            is_lock: has_bit(raw.state, LOCK_MASK),
            key: Key::spec_from_keysym(keysym),
        }
    }

    /// The outcome of decoding `raw`, given what resolving its keycode gave.
    pub open spec fn spec_decode(raw: RawKeyEvent, resolved: Result<u64, ResolveError>) -> Result<
        KeyEvent,
        ResolveError,
    > {
        match resolved {
            Ok(keysym) => Ok(KeyEvent::spec_with_keysym(raw, keysym)),
            Err(e) => Err(e),
        }
    }

    /// Reads the modifiers of `raw` and pairs them with the key of `keysym`.
    pub fn with_keysym(raw: &RawKeyEvent, keysym: u64) -> (r: KeyEvent)
        ensures
            r == KeyEvent::spec_with_keysym(*raw, keysym),
    {
        let state = raw.state;
        KeyEvent {
            is_alt_down: (state & MOD1_MASK) > 0,
            is_super_down: (state & MOD4_MASK) > 0,
            is_shift_down: (state & SHIFT_MASK) > 0,
            is_control_down: (state & CONTROL_MASK) > 0,
            is_num_lock: (state & MOD2_MASK) > 0,
            is_lock: (state & LOCK_MASK) > 0,
            key: Key::from_keysym(keysym),
        }
    }

    /// Decodes a raw key press. `resolve` maps a keycode to its key symbol; it
    /// is asked once, for the keycode of `xevent`, and its error is passed on.
    pub fn from_xevent<F: Fn(u8) -> Result<u64, ResolveError>>(xevent: RawKeyEvent, resolve: F) -> (r:
        Result<KeyEvent, ResolveError>)
        requires
            resolve.requires((xevent.spec_keycode(),)),
        ensures
            exists|resolved: Result<u64, ResolveError>|
                #![trigger KeyEvent::spec_decode(xevent, resolved)]
                resolve.ensures((xevent.spec_keycode(),), resolved) && r == KeyEvent::spec_decode(
                    xevent,
                    resolved,
                ),
    {
        let keycode = xevent.keycode();
        let resolved = resolve(keycode);
        let r = match resolved {
            Ok(keysym) => Ok(KeyEvent::with_keysym(&xevent, keysym)),
            Err(e) => Err(e),
        };
        assert(r == KeyEvent::spec_decode(xevent, resolved));
        r
    }
}

/// A record whose modifier bits are exactly shift and control decodes with
/// shift and control down and every other modifier up.
pub proof fn lemma_shift_and_control_only(raw: RawKeyEvent, keysym: u64)
    requires
        raw.state & MODIFIER_BITS == SHIFT_MASK | CONTROL_MASK,
    ensures
        ({
            let e = KeyEvent::spec_with_keysym(raw, keysym);
            &&& e.is_shift_down
            &&& e.is_control_down
            &&& !e.is_alt_down
            &&& !e.is_super_down
            &&& !e.is_num_lock
            &&& !e.is_lock
        }),
{
    let s = raw.state;
    assert(SHIFT_MASK | CONTROL_MASK == 0x5) by (bit_vector);
    assert({
        &&& s & 0x1 > 0
        &&& s & 0x4 > 0
        &&& s & 0x8 == 0
        &&& s & 0x40 == 0
        &&& s & 0x10 == 0
        &&& s & 0x2 == 0
    }) by (bit_vector)
        requires
            s & 0x5f == 0x5,
    ;
}

/// Bits of the keycode field above the low byte are ignored: two records that
/// differ only there decode to the same keycode and the same key event.
pub proof fn lemma_keycode_high_bits_ignored(raw: RawKeyEvent, keysym: u64)
    ensures
        ({
            let cleared = RawKeyEvent { state: raw.state, keycode: raw.keycode & KEYCODE_BITS };
            &&& raw.spec_keycode() == cleared.spec_keycode()
            &&& KeyEvent::spec_with_keysym(raw, keysym) == KeyEvent::spec_with_keysym(
                cleared,
                keysym,
            )
        }),
{
    let k = raw.keycode;
    assert((k & 0xff) & 0xff == k & 0xff) by (bit_vector);
}

} // verus!
