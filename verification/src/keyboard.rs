//! Keyboard of the machine: 16 keys and the host's key-wait provider.
use vstd::prelude::*;

verus! {

/// The number of keys available on the keyboard.
pub const NUM_KEYS: usize = 16;

/// Type returned by the key-wait provider: a key code, or a message that
/// says why no key could be had.
pub type WaitKeyResult<T> = Result<T, String>;

/// Enumeration of the states of keys.
#[derive(Clone, Copy, Debug, PartialEq, Eq, Structural)]
pub enum KeyState {
    Released,
    Pressed,
}

/// Data structure representing the state of the keyboard.
pub struct Keyboard<F> where F: FnMut() -> WaitKeyResult<u8> {
    /// State of the keys on the keyboard.
    pub keys: [KeyState; NUM_KEYS],
    /// Provider invoked when a wait key instruction occurs. It blocks until
    /// a key is pressed and returns its code.
    pub wait_key_callback: Box<F>,
}

/// The state of the key with code `key`, where there is such a key.
pub open spec fn key_state(keys: Seq<KeyState>, key: int) -> Option<KeyState> {
    if 0 <= key < keys.len() {
        Some(keys[key])
    } else {
        None
    }
}

impl<F> View for Keyboard<F> where F: FnMut() -> WaitKeyResult<u8> {
    type V = Seq<KeyState>;

    open spec fn view(&self) -> Seq<KeyState> {
        self.keys@
    }
}

impl<F> Keyboard<F> where F: FnMut() -> WaitKeyResult<u8> {
    /// Initialize a new keyboard structure with all keys released.
    pub fn new(wait_key_callback: Box<F>) -> (keyboard: Self)
        ensures
            keyboard@ == Seq::new(16, |k: int| KeyState::Released),
            keyboard.wait_key_callback == wait_key_callback,
    {
        let keyboard = Self { keys: [KeyState::Released;16], wait_key_callback };
        assert(keyboard@ =~= Seq::new(16, |k: int| KeyState::Released));
        keyboard
    }

    /// Update state to indicate that a key was pressed.
    pub fn key_pressed(&mut self, key: u8)
        requires
            key < 16,
        ensures
            final(self)@ == old(self)@.update(key as int, KeyState::Pressed),
            final(self).wait_key_callback == old(self).wait_key_callback,
    {
        self.keys[key as usize] = KeyState::Pressed;
    }

    /// Update state to indicate that a key was released.
    pub fn key_released(&mut self, key: u8)
        requires
            key < 16,
        ensures
            final(self)@ == old(self)@.update(key as int, KeyState::Released),
            final(self).wait_key_callback == old(self).wait_key_callback,
    {
        self.keys[key as usize] = KeyState::Released;
    }

    /// Whether there is a key with the given code and it is in the given
    /// state.
    pub fn key_is(&self, key: u8, state: KeyState) -> (found: bool)
        ensures
            found == (key_state(self@, key as int) == Some(state)),
    {
        if key as usize >= NUM_KEYS {
            return false;
        }
        self.keys[key as usize] == state
    }

    /// Asks the host's provider for the next pressed key. The call blocks
    /// until the provider returns. The provider is called without access to
    /// the keys, so they stay as they are; what it hands back is whatever
    /// its own contract allows.
    pub(crate) fn wait_key(&mut self) -> (key: WaitKeyResult<u8>)
        requires
            call_requires(*old(self).wait_key_callback, ()),
        ensures
            final(self).keys == old(self).keys,
            final(self).wait_key_callback == old(self).wait_key_callback,
            call_ensures(*old(self).wait_key_callback, (), key),
    {
        (self.wait_key_callback)()
    }
}

/// Null operation (nop) provider for the wait key instruction. Does nothing
/// and returns a constant key value.
pub fn nop_wait_key_callback() -> (key: WaitKeyResult<u8>)
    ensures
        key == Ok::<u8, String>(0u8),
{
    Ok(0x00)
}

} // verus!
