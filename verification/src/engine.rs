//! The boundary to the native engine.
//!
//! [`Engine`] lists, call for call, what the sessions ask of the emulator. The
//! trait promises nothing about what comes back, so whatever the sessions
//! guarantee, they guarantee for every engine. Their contracts are stated over
//! the engine's own calls: a session says which call it makes with which
//! arguments and what it does with an answer, and an engine that states what
//! its calls give has that carried through to the session's caller.
//!
//! What a method demands of its caller is what the native call needs in order
//! to be made at all: a string that survives the trip as a C string, and for
//! bytes their true number. Numbers cross the boundary as the engine's own
//! integer type, flags included.

use vstd::prelude::*;
use crate::text::is_c_text;

verus! {

/// One native emulator instance, and the snapshots it hands out.
pub trait Engine: Sized {
    /// A snapshot of emulator state, held outside the engine. It is released
    /// when the value is dropped.
    type State;

    /// Makes the native instance.
    fn create() -> Self;

    /// Releases the native instance.
    fn delete(self);

    /// The bytes of the string setting `key`, without a terminator.
    fn get_string(&self, key: &str) -> Vec<u8>
        requires
            is_c_text(key@),
    ;

    /// The boolean setting `key`: zero for false.
    fn get_bool(&self, key: &str) -> i32
        requires
            is_c_text(key@),
    ;

    /// The integer setting `key`.
    fn get_int(&self, key: &str) -> i32
        requires
            is_c_text(key@),
    ;

    /// Sets the string setting `key`.
    fn set_string(&mut self, key: &str, val: &str)
        requires
            is_c_text(key@),
            is_c_text(val@),
    ;

    /// Sets the boolean setting `key`: zero for false.
    fn set_bool(&mut self, key: &str, val: i32)
        requires
            is_c_text(key@),
    ;

    /// Sets the integer setting `key`.
    fn set_int(&mut self, key: &str, val: i32)
        requires
            is_c_text(key@),
    ;

    /// Loads the ROM image in the file `file_name`.
    fn load_rom(&mut self, file_name: &str)
        requires
            is_c_text(file_name@),
    ;

    /// Runs one emulation step with the input `action` and gives the reward.
    fn act(&mut self, action: i32) -> i32;

    /// Whether the episode has ended: zero while it has not.
    fn game_over(&self) -> i32;

    /// Starts the episode anew.
    fn reset_game(&mut self);

    /// How many actions the legal action set has.
    fn legal_action_size(&self) -> i32;

    /// Writes the legal action set to the front of `actions`.
    fn legal_action_set(&self, actions: &mut [i32]);

    /// How many actions the minimal action set has.
    fn minimal_action_size(&self) -> i32;

    /// Writes the minimal action set to the front of `actions`.
    fn minimal_action_set(&self, actions: &mut [i32]);

    /// The number of frames since the ROM was loaded.
    fn frame_number(&self) -> i32;

    /// The lives that are left.
    fn lives(&self) -> i32;

    /// The number of frames since the episode began.
    fn episode_frame_number(&self) -> i32;

    /// The width of the screen in pixels.
    fn screen_width(&self) -> i32;

    /// The height of the screen in pixels.
    fn screen_height(&self) -> i32;

    /// Writes the screen to the front of `buf`, one palette index per pixel.
    fn screen(&self, buf: &mut [u8]);

    /// Writes the screen to the front of `buf` in the engine's RGB packing.
    fn screen_rgb(&self, buf: &mut [u8]);

    /// The size of the emulated RAM in bytes.
    fn ram_size(&self) -> i32;

    /// Writes the emulated RAM to the front of `buf`.
    fn ram(&self, buf: &mut [u8]);

    /// Saves the state to the engine's own single slot.
    fn save_state(&mut self);

    /// Loads the state from the engine's own single slot.
    fn load_state(&mut self);

    /// Writes the current frame as a PNG image to the file `file_name`.
    fn save_screen_png(&self, file_name: &str)
        requires
            is_c_text(file_name@),
    ;

    /// A snapshot of the game-level state.
    fn clone_state(&self) -> Self::State;

    /// Puts the game-level state back to `state`.
    fn restore_state(&mut self, state: &Self::State);

    /// A snapshot of the whole machine.
    fn clone_system_state(&self) -> Self::State;

    /// Puts the whole machine back to `state`.
    fn restore_system_state(&mut self, state: &Self::State);

    /// How many bytes `state` takes when written out.
    fn encode_state_len(state: &Self::State) -> i32;

    /// Writes `state` out to the front of `buf`.
    fn encode_state(state: &Self::State, buf: &mut [i8]);

    /// Rebuilds a snapshot from the first `len` bytes of `serialized`.
    fn decode_state(serialized: &[i8], len: i32) -> Self::State
        requires
            len == serialized@.len(),
    ;
}

/// The flag that an engine integer stands for: any value but zero is true.
pub open spec fn flag_of(value: i32) -> bool {
    value != 0
}

/// Reads an engine integer as a flag.
pub fn flag_from_int(value: i32) -> (flag: bool)
    ensures
        flag == flag_of(value),
{
    value != 0
}

/// The engine integer that stands for a flag: one for true, zero for false.
pub open spec fn int_of(flag: bool) -> i32 {
    if flag {
        1
    } else {
        0
    }
}

/// Writes a flag as an engine integer.
pub fn int_from_flag(flag: bool) -> (value: i32)
    ensures
        value == int_of(flag),
        flag_of(value) == flag,
{
    if flag {
        1
    } else {
        0
    }
}

} // verus!
