//! The engine session: a live engine before a ROM is loaded.
//!
//! What a session hands to the engine and what it makes of the answer is said
//! here; what the engine answers is said by the engine. So the contracts speak
//! of the engine's own calls: a result is one that the engine's method may
//! give for these arguments, whichever engine it is.

use vstd::prelude::*;
use vstd::utf8::{decode_utf8, valid_utf8};
use crate::engine::{flag_from_int, flag_of, int_from_flag, int_of, Engine};
use crate::game::Game;
use crate::guard::InstanceGuard;
use crate::text::{is_c_text, text_from_bytes};

verus! {

/// A live engine. It owns the one native instance that the process may have,
/// gives typed access to its settings, and turns into a game when a ROM is
/// loaded.
///
/// A session is ended with [`close`](Self::close). One that is merely dropped
/// leaves the guard set, and no other engine can be made.
pub struct ALE<E: Engine> {
    pub(crate) engine: E,
}

impl<E: Engine> ALE<E> {
    /// The engine underneath.
    pub open(crate) spec fn engine_view(&self) -> E {
        self.engine
    }

    /// Makes the engine of this process. One must not be alive already: the
    /// guard's flag is tested and set before the native instance is made.
    pub fn new(guard: &mut InstanceGuard) -> (ale: Self)
        requires
            !old(guard).is_held(),
        ensures
            final(guard).is_held(),
            call_ensures(E::create, (), ale.engine_view()),
    {
        guard.acquire();
        ALE { engine: E::create() }
    }

    /// Ends the session: the native instance is released first, and only then
    /// is the guard cleared for the next engine.
    pub fn close(self, guard: &mut InstanceGuard)
        ensures
            !final(guard).is_held(),
            call_ensures(E::delete, (self.engine_view(),), ()),
    {
        let ALE { engine } = self;
        engine.delete();
        guard.release();
    }

    /// The engine underneath, for what an engine offers beyond this session.
    /// The session stays the owner.
    pub fn engine(&self) -> (engine: &E)
        ensures
            *engine == self.engine_view(),
    {
        &self.engine
    }

    /// The string setting `key`: the text that the engine's bytes spell, or
    /// `None` where they are not UTF-8.
    pub fn get_string(&self, key: &str) -> (text: Option<String>)
        requires
            is_c_text(key@),
        ensures
            exists|bytes: Vec<u8>|
                {
                    &&& #[trigger] call_ensures(E::get_string, (&self.engine_view(), key), bytes)
                    &&& text is Some <==> valid_utf8(bytes@)
                    &&& text matches Some(s) ==> s@ == decode_utf8(bytes@)
                },
    {
        text_from_bytes(self.engine.get_string(key))
    }

    /// The boolean setting `key`: true unless the engine's integer is zero.
    pub fn get_bool(&self, key: &str) -> (flag: bool)
        requires
            is_c_text(key@),
        ensures
            exists|value: i32|
                {
                    &&& #[trigger] call_ensures(E::get_bool, (&self.engine_view(), key), value)
                    &&& flag == flag_of(value)
                },
    {
        flag_from_int(self.engine.get_bool(key))
    }

    /// The integer setting `key`.
    pub fn get_int(&self, key: &str) -> (value: i32)
        requires
            is_c_text(key@),
        ensures
            call_ensures(E::get_int, (&self.engine_view(), key), value),
    {
        self.engine.get_int(key)
    }

    /// Sets the string setting `key`.
    pub fn set_string(&mut self, key: &str, val: &str)
        requires
            is_c_text(key@),
            is_c_text(val@),
        ensures
            exists|engine: &mut E|
                {
                    &&& mut_ref_current(engine) == old(self).engine_view()
                    &&& mut_ref_future(engine) == final(self).engine_view()
                    &&& #[trigger] call_ensures(E::set_string, (engine, key, val), ())
                },
    {
        self.engine.set_string(key, val);
    }

    /// Sets the boolean setting `key`: the engine gets one for true and zero
    /// for false.
    pub fn set_bool(&mut self, key: &str, val: bool)
        requires
            is_c_text(key@),
        ensures
            exists|engine: &mut E|
                {
                    &&& mut_ref_current(engine) == old(self).engine_view()
                    &&& mut_ref_future(engine) == final(self).engine_view()
                    &&& #[trigger] call_ensures(
                        E::set_bool,
                        (engine, key, int_of(val)),
                        (),
                    )
                },
    {
        self.engine.set_bool(key, int_from_flag(val));
    }

    /// Sets the integer setting `key`.
    pub fn set_int(&mut self, key: &str, val: i32)
        requires
            is_c_text(key@),
        ensures
            exists|engine: &mut E|
                {
                    &&& mut_ref_current(engine) == old(self).engine_view()
                    &&& mut_ref_future(engine) == final(self).engine_view()
                    &&& #[trigger] call_ensures(E::set_int, (engine, key, val), ())
                },
    {
        self.engine.set_int(key, val);
    }

    /// Loads the ROM in the file `file_name`. This uses up the engine session
    /// and gives a game, since only one of the two may be active; the engine
    /// session can be had back from the game.
    pub fn load_rom(self, file_name: &str) -> (game: Game<E>)
        requires
            is_c_text(file_name@),
        ensures
            game.rom() == file_name@,
            exists|engine: &mut E|
                {
                    &&& mut_ref_current(engine) == self.engine_view()
                    &&& mut_ref_future(engine) == game.engine_view()
                    &&& #[trigger] call_ensures(E::load_rom, (engine, file_name), ())
                },
    {
        let mut ale = self;
        ale.engine.load_rom(file_name);
        Game::new(ale, file_name.to_owned())
    }
}

} // verus!
