//! The game session: an engine with a ROM loaded.
//!
//! As in the engine session, the contracts speak of the engine's own calls.
//! Where the engine is asked for a size before a buffer is filled, the
//! function with `_sized` in its name tells what follows from a given answer.

use vstd::prelude::*;
use crate::action::{actions_from_codes, actions_of, Action};
use crate::engine::{flag_from_int, flag_of, Engine};
use crate::session::ALE;
use crate::size::{checked_len, fit, fitted, len_from_dimensions, len_from_size, SizeError};
use crate::state::{AleState, AleSystemState};
use crate::text::is_c_text;

verus! {

/// An engine with a ROM loaded. A game comes only from loading a ROM, so
/// there is none without one. It steps the emulation, tells what it sees, and
/// saves and restores state.
///
/// A game ends as the engine session underneath does: turn it back into the
/// [`ALE`] and close that.
pub struct Game<E: Engine> {
    pub(crate) ale: ALE<E>,
    pub(crate) rom_path: String,
}

impl<E: Engine> Game<E> {
    /// The path of the ROM that is loaded.
    pub open(crate) spec fn rom(&self) -> Seq<char> {
        self.rom_path@
    }

    /// The engine session underneath.
    pub open(crate) spec fn session(&self) -> ALE<E> {
        self.ale
    }

    /// The engine underneath.
    pub open spec fn engine_view(&self) -> E {
        self.session().engine_view()
    }

    /// The game of an engine into which the ROM at `path` has been loaded.
    pub(crate) fn new(ale: ALE<E>, path: String) -> (game: Self)
        ensures
            game.rom() == path@,
            game.session() == ale,
    {
        Game { ale: ale, rom_path: path }
    }

    /// The path of the ROM that is loaded.
    pub fn rom_path(&self) -> (path: &str)
        ensures
            path@ == self.rom(),
    {
        self.rom_path.as_str()
    }

    /// The engine session underneath, for its settings.
    pub fn ale(&self) -> (ale: &ALE<E>)
        ensures
            *ale == self.session(),
    {
        &self.ale
    }

    /// The engine session underneath, for changing its settings.
    pub fn ale_mut(&mut self) -> (ale: &mut ALE<E>)
        ensures
            *ale == old(self).session(),
            final(self).session() == *final(ale),
            final(self).rom() == old(self).rom(),
    {
        &mut self.ale
    }

    /// Changes the game by loading another ROM. This uses up the current game
    /// and gives a new one on the same engine.
    pub fn change_game(self, file_name: &str) -> (game: Game<E>)
        requires
            is_c_text(file_name@),
        ensures
            game.rom() == file_name@,
            exists|engine: &mut E|
                {
                    &&& mut_ref_current(engine) == self.engine_view()
                    &&& mut_ref_future(engine) == game.engine_view()
                    &&& #[trigger] call_ensures(E::load_rom, (engine, file_name), ())
                },
    {
        self.ale.load_rom(file_name)
    }

    /// Runs one emulation step with `action` and gives the reward. The engine
    /// decides what an action does, also once the episode is over.
    pub fn act(&mut self, action: Action) -> (reward: i32)
        ensures
            final(self).rom() == old(self).rom(),
            exists|engine: &mut E|
                {
                    &&& mut_ref_current(engine) == old(self).engine_view()
                    &&& mut_ref_future(engine) == final(self).engine_view()
                    &&& #[trigger] call_ensures(E::act, (engine, action.0), reward)
                },
    {
        let Action(code) = action;
        self.ale.engine.act(code)
    }

    /// Whether the episode has ended: true unless the engine's integer is zero.
    pub fn is_over(&self) -> (over: bool)
        ensures
            exists|value: i32|
                {
                    &&& #[trigger] call_ensures(E::game_over, (&self.engine_view(),), value)
                    &&& over == flag_of(value)
                },
    {
        let value = self.ale.engine.game_over();
        assert(call_ensures(E::game_over, (&self.engine_view(),), value));
        flag_from_int(value)
    }

    /// Starts the episode anew. The ROM stays loaded.
    pub fn reset(&mut self)
        ensures
            final(self).rom() == old(self).rom(),
            exists|engine: &mut E|
                {
                    &&& mut_ref_current(engine) == old(self).engine_view()
                    &&& mut_ref_future(engine) == final(self).engine_view()
                    &&& #[trigger] call_ensures(E::reset_game, (engine,), ())
                },
    {
        self.ale.engine.reset_game();
    }

    /// The actions that the game accepts, in the engine's order. The engine is
    /// asked for their number first, and the set has exactly that many.
    pub fn legal_action_set(&self) -> (actions: Result<Vec<Action>, SizeError>)
        ensures
            exists|size: i32|
                {
                    &&& #[trigger] call_ensures(
                        E::legal_action_size,
                        (&self.engine_view(),),
                        size,
                    )
                    &&& match checked_len(size as int) {
                        Ok(len) => {
                            &&& actions is Ok
                            &&& actions->Ok_0@.len() == len
                            &&& exists|slice: &mut [i32]|
                                {
                                    &&& slice@ == fitted(Seq::<i32>::empty(), len as nat, 0i32)
                                    &&& #[trigger] call_ensures(
                                        E::legal_action_set,
                                        (&self.engine_view(), slice),
                                        (),
                                    )
                                    &&& actions->Ok_0@ == actions_of(
                                        fitted(final(slice)@, len as nat, 0i32),
                                    )
                                }
                        },
                        Err(e) => actions == Err::<Vec<Action>, SizeError>(e),
                    }
                },
    {
        let size = self.ale.engine.legal_action_size();
        assert(call_ensures(E::legal_action_size, (&self.engine_view(),), size));
        self.legal_action_set_sized(size)
    }

    /// The legal action set, `size` being the number of actions that the engine
    /// gave for it. The engine writes into a slice of `size` codes, and the
    /// result is the actions that stand there afterwards: exactly `size`.
    pub fn legal_action_set_sized(&self, size: i32) -> (actions: Result<Vec<Action>, SizeError>)
        ensures
            match checked_len(size as int) {
                Ok(len) => {
                    &&& actions is Ok
                    &&& actions->Ok_0@.len() == len
                    &&& exists|slice: &mut [i32]|
                        {
                            &&& slice@ == fitted(Seq::<i32>::empty(), len as nat, 0i32)
                            &&& #[trigger] call_ensures(
                                E::legal_action_set,
                                (&self.engine_view(), slice),
                                (),
                            )
                            &&& actions->Ok_0@ == actions_of(
                                fitted(final(slice)@, len as nat, 0i32),
                            )
                        }
                },
                Err(e) => actions == Err::<Vec<Action>, SizeError>(e),
            },
    {
        match len_from_size(size) {
            Ok(len) => {
                let mut codes: Vec<i32> = Vec::new();
                fit(&mut codes, len, 0i32);
                assert(self.engine_view() == self.ale.engine);
                self.ale.engine.legal_action_set(codes.as_mut_slice());
                // The engine wrote into a slice, which keeps its length.
                fit(&mut codes, len, 0i32);
                let actions = Ok(actions_from_codes(&codes));
                assert(actions->Ok_0@ == actions_of(codes@));
                actions
            },
            Err(e) => Err(e),
        }
    }

    /// The actions that make a difference in the game, in the engine's order.
    /// The engine is asked for their number first, and the set has exactly
    /// that many.
    pub fn minimal_action_set(&self) -> (actions: Result<Vec<Action>, SizeError>)
        ensures
            exists|size: i32|
                {
                    &&& #[trigger] call_ensures(
                        E::minimal_action_size,
                        (&self.engine_view(),),
                        size,
                    )
                    &&& match checked_len(size as int) {
                        Ok(len) => {
                            &&& actions is Ok
                            &&& actions->Ok_0@.len() == len
                            &&& exists|slice: &mut [i32]|
                                {
                                    &&& slice@ == fitted(Seq::<i32>::empty(), len as nat, 0i32)
                                    &&& #[trigger] call_ensures(
                                        E::minimal_action_set,
                                        (&self.engine_view(), slice),
                                        (),
                                    )
                                    &&& actions->Ok_0@ == actions_of(
                                        fitted(final(slice)@, len as nat, 0i32),
                                    )
                                }
                        },
                        Err(e) => actions == Err::<Vec<Action>, SizeError>(e),
                    }
                },
    {
        let size = self.ale.engine.minimal_action_size();
        assert(call_ensures(E::minimal_action_size, (&self.engine_view(),), size));
        self.minimal_action_set_sized(size)
    }

    /// The minimal action set, `size` being the number of actions that the
    /// engine gave for it. The engine writes into a slice of `size` codes, and
    /// the result is the actions that stand there afterwards: exactly `size`.
    pub fn minimal_action_set_sized(&self, size: i32) -> (actions: Result<Vec<Action>, SizeError>)
        ensures
            match checked_len(size as int) {
                Ok(len) => {
                    &&& actions is Ok
                    &&& actions->Ok_0@.len() == len
                    &&& exists|slice: &mut [i32]|
                        {
                            &&& slice@ == fitted(Seq::<i32>::empty(), len as nat, 0i32)
                            &&& #[trigger] call_ensures(
                                E::minimal_action_set,
                                (&self.engine_view(), slice),
                                (),
                            )
                            &&& actions->Ok_0@ == actions_of(
                                fitted(final(slice)@, len as nat, 0i32),
                            )
                        }
                },
                Err(e) => actions == Err::<Vec<Action>, SizeError>(e),
            },
    {
        match len_from_size(size) {
            Ok(len) => {
                let mut codes: Vec<i32> = Vec::new();
                fit(&mut codes, len, 0i32);
                assert(self.engine_view() == self.ale.engine);
                self.ale.engine.minimal_action_set(codes.as_mut_slice());
                // The engine wrote into a slice, which keeps its length.
                fit(&mut codes, len, 0i32);
                let actions = Ok(actions_from_codes(&codes));
                assert(actions->Ok_0@ == actions_of(codes@));
                actions
            },
            Err(e) => Err(e),
        }
    }

    /// The number of frames since the ROM was loaded.
    pub fn frame_number(&self) -> (frames: i32)
        ensures
            call_ensures(E::frame_number, (&self.engine_view(),), frames),
    {
        self.ale.engine.frame_number()
    }

    /// The lives that are left.
    pub fn lives(&self) -> (lives: i32)
        ensures
            call_ensures(E::lives, (&self.engine_view(),), lives),
    {
        self.ale.engine.lives()
    }

    /// The number of frames since the episode began.
    pub fn episode_frame_number(&self) -> (frames: i32)
        ensures
            call_ensures(E::episode_frame_number, (&self.engine_view(),), frames),
    {
        self.ale.engine.episode_frame_number()
    }

    /// The screen dimensions as (width, height).
    pub fn screen_dimensions(&self) -> (dimensions: (i32, i32))
        ensures
            call_ensures(E::screen_width, (&self.engine_view(),), dimensions.0),
            call_ensures(E::screen_height, (&self.engine_view(),), dimensions.1),
    {
        (self.ale.engine.screen_width(), self.ale.engine.screen_height())
    }

    /// Fills `buf` with the screen, one palette index per pixel. The buffer is
    /// reused: it grows if it is too small and ends with exactly as many bytes
    /// as the screen has pixels, width times height. It is left alone where the
    /// engine's dimensions make no length.
    pub fn screen_in_buf(&self, buf: &mut Vec<u8>) -> (filled: Result<(), SizeError>)
        ensures
            exists|width: i32, height: i32|
                {
                    &&& #[trigger] call_ensures(E::screen_width, (&self.engine_view(),), width)
                    &&& #[trigger] call_ensures(E::screen_height, (&self.engine_view(),), height)
                    &&& match checked_len(width * height) {
                        Ok(len) => {
                            &&& filled is Ok
                            &&& final(buf)@.len() == len
                            &&& exists|slice: &mut [u8]|
                                {
                                    &&& slice@ == fitted(old(buf)@, len as nat, 0u8)
                                    &&& #[trigger] call_ensures(
                                        E::screen,
                                        (&self.engine_view(), slice),
                                        (),
                                    )
                                    &&& final(buf)@ == fitted(final(slice)@, len as nat, 0u8)
                                }
                        },
                        Err(e) => filled == Err::<(), SizeError>(e) && final(buf)@ == old(buf)@,
                    }
                },
    {
        let (width, height) = self.screen_dimensions();
        self.screen_in_buf_sized(buf, width, height)
    }

    /// Fills `buf` with the screen, `width` and `height` being the dimensions
    /// that the engine gave. The buffer is given exactly `width * height`
    /// bytes, the engine writes into them, and that is what the buffer holds
    /// afterwards.
    pub fn screen_in_buf_sized(&self, buf: &mut Vec<u8>, width: i32, height: i32) -> (filled:
        Result<(), SizeError>)
        ensures
            match checked_len(width * height) {
                Ok(len) => {
                    &&& filled is Ok
                    &&& final(buf)@.len() == len
                    &&& exists|slice: &mut [u8]|
                        {
                            &&& slice@ == fitted(old(buf)@, len as nat, 0u8)
                            &&& #[trigger] call_ensures(
                                E::screen,
                                (&self.engine_view(), slice),
                                (),
                            )
                            &&& final(buf)@ == fitted(final(slice)@, len as nat, 0u8)
                        }
                },
                Err(e) => filled == Err::<(), SizeError>(e) && final(buf)@ == old(buf)@,
            },
    {
        match len_from_dimensions(width, height) {
            Ok(len) => {
                fit(buf, len, 0u8);
                assert(self.engine_view() == self.ale.engine);
                self.ale.engine.screen(buf.as_mut_slice());
                // The engine wrote into a slice, which keeps its length.
                fit(buf, len, 0u8);
                Ok(())
            },
            Err(e) => Err(e),
        }
    }

    /// The screen, one palette index per pixel: what
    /// [`screen_in_buf`](Self::screen_in_buf) puts into an empty buffer.
    pub fn screen(&self) -> (pixels: Result<Vec<u8>, SizeError>)
        ensures
            exists|width: i32, height: i32|
                {
                    &&& #[trigger] call_ensures(E::screen_width, (&self.engine_view(),), width)
                    &&& #[trigger] call_ensures(E::screen_height, (&self.engine_view(),), height)
                    &&& match checked_len(width * height) {
                        Ok(len) => {
                            &&& pixels is Ok
                            &&& pixels->Ok_0@.len() == len
                            &&& exists|slice: &mut [u8]|
                                {
                                    &&& slice@ == fitted(Seq::<u8>::empty(), len as nat, 0u8)
                                    &&& #[trigger] call_ensures(
                                        E::screen,
                                        (&self.engine_view(), slice),
                                        (),
                                    )
                                    &&& pixels->Ok_0@ == fitted(final(slice)@, len as nat, 0u8)
                                }
                        },
                        Err(e) => pixels == Err::<Vec<u8>, SizeError>(e),
                    }
                },
    {
        let mut buf: Vec<u8> = Vec::new();
        match self.screen_in_buf(&mut buf) {
            Ok(()) => {
                let pixels = Ok(buf);
                assert(pixels->Ok_0@ == buf@);
                pixels
            },
            Err(e) => Err(e),
        }
    }

    /// Fills `buf` with the screen in the engine's RGB packing, as
    /// [`screen_in_buf`](Self::screen_in_buf) does with the palette indices.
    pub fn screen_rgb_in_buf(&self, buf: &mut Vec<u8>) -> (filled: Result<(), SizeError>)
        ensures
            exists|width: i32, height: i32|
                {
                    &&& #[trigger] call_ensures(E::screen_width, (&self.engine_view(),), width)
                    &&& #[trigger] call_ensures(E::screen_height, (&self.engine_view(),), height)
                    &&& match checked_len(width * height) {
                        Ok(len) => {
                            &&& filled is Ok
                            &&& final(buf)@.len() == len
                            &&& exists|slice: &mut [u8]|
                                {
                                    &&& slice@ == fitted(old(buf)@, len as nat, 0u8)
                                    &&& #[trigger] call_ensures(
                                        E::screen_rgb,
                                        (&self.engine_view(), slice),
                                        (),
                                    )
                                    &&& final(buf)@ == fitted(final(slice)@, len as nat, 0u8)
                                }
                        },
                        Err(e) => filled == Err::<(), SizeError>(e) && final(buf)@ == old(buf)@,
                    }
                },
    {
        let (width, height) = self.screen_dimensions();
        self.screen_rgb_in_buf_sized(buf, width, height)
    }

    /// Fills `buf` with the screen in the engine's RGB packing, `width` and
    /// `height` being the dimensions that the engine gave. The buffer is
    /// given exactly `width * height` bytes, the engine writes into them, and
    /// that is what the buffer holds afterwards.
    pub fn screen_rgb_in_buf_sized(&self, buf: &mut Vec<u8>, width: i32, height: i32) -> (filled:
        Result<(), SizeError>)
        ensures
            match checked_len(width * height) {
                Ok(len) => {
                    &&& filled is Ok
                    &&& final(buf)@.len() == len
                    &&& exists|slice: &mut [u8]|
                        {
                            &&& slice@ == fitted(old(buf)@, len as nat, 0u8)
                            &&& #[trigger] call_ensures(
                                E::screen_rgb,
                                (&self.engine_view(), slice),
                                (),
                            )
                            &&& final(buf)@ == fitted(final(slice)@, len as nat, 0u8)
                        }
                },
                Err(e) => filled == Err::<(), SizeError>(e) && final(buf)@ == old(buf)@,
            },
    {
        match len_from_dimensions(width, height) {
            Ok(len) => {
                fit(buf, len, 0u8);
                assert(self.engine_view() == self.ale.engine);
                self.ale.engine.screen_rgb(buf.as_mut_slice());
                // The engine wrote into a slice, which keeps its length.
                fit(buf, len, 0u8);
                Ok(())
            },
            Err(e) => Err(e),
        }
    }

    /// The screen in the engine's RGB packing: what
    /// [`screen_rgb_in_buf`](Self::screen_rgb_in_buf) puts into an empty
    /// buffer.
    pub fn screen_rgb(&self) -> (pixels: Result<Vec<u8>, SizeError>)
        ensures
            exists|width: i32, height: i32|
                {
                    &&& #[trigger] call_ensures(E::screen_width, (&self.engine_view(),), width)
                    &&& #[trigger] call_ensures(E::screen_height, (&self.engine_view(),), height)
                    &&& match checked_len(width * height) {
                        Ok(len) => {
                            &&& pixels is Ok
                            &&& pixels->Ok_0@.len() == len
                            &&& exists|slice: &mut [u8]|
                                {
                                    &&& slice@ == fitted(Seq::<u8>::empty(), len as nat, 0u8)
                                    &&& #[trigger] call_ensures(
                                        E::screen_rgb,
                                        (&self.engine_view(), slice),
                                        (),
                                    )
                                    &&& pixels->Ok_0@ == fitted(final(slice)@, len as nat, 0u8)
                                }
                        },
                        Err(e) => pixels == Err::<Vec<u8>, SizeError>(e),
                    }
                },
    {
        let mut buf: Vec<u8> = Vec::new();
        match self.screen_rgb_in_buf(&mut buf) {
            Ok(()) => {
                let pixels = Ok(buf);
                assert(pixels->Ok_0@ == buf@);
                pixels
            },
            Err(e) => Err(e),
        }
    }

    /// The size of the emulated RAM in bytes.
    pub fn ram_size(&self) -> (size: i32)
        ensures
            call_ensures(E::ram_size, (&self.engine_view(),), size),
    {
        self.ale.engine.ram_size()
    }

    /// Fills `buf` with the emulated RAM. The buffer is reused: it grows if it
    /// is too small and ends with exactly as many bytes as the RAM has. It is
    /// left alone where the engine's size makes no length.
    pub fn ram_in_buf(&self, buf: &mut Vec<u8>) -> (filled: Result<(), SizeError>)
        ensures
            exists|size: i32|
                {
                    &&& #[trigger] call_ensures(E::ram_size, (&self.engine_view(),), size)
                    &&& match checked_len(size as int) {
                        Ok(len) => {
                            &&& filled is Ok
                            &&& final(buf)@.len() == len
                            &&& exists|slice: &mut [u8]|
                                {
                                    &&& slice@ == fitted(old(buf)@, len as nat, 0u8)
                                    &&& #[trigger] call_ensures(
                                        E::ram,
                                        (&self.engine_view(), slice),
                                        (),
                                    )
                                    &&& final(buf)@ == fitted(final(slice)@, len as nat, 0u8)
                                }
                        },
                        Err(e) => filled == Err::<(), SizeError>(e) && final(buf)@ == old(buf)@,
                    }
                },
    {
        let size = self.ram_size();
        self.ram_in_buf_sized(buf, size)
    }

    /// Fills `buf` with the emulated RAM, `size` being the size that the engine
    /// gave. The buffer is given exactly `size` bytes, the engine writes into
    /// them, and that is what the buffer holds afterwards.
    pub fn ram_in_buf_sized(&self, buf: &mut Vec<u8>, size: i32) -> (filled: Result<
        (),
        SizeError,
    >)
        ensures
            match checked_len(size as int) {
                Ok(len) => {
                    &&& filled is Ok
                    &&& final(buf)@.len() == len
                    &&& exists|slice: &mut [u8]|
                        {
                            &&& slice@ == fitted(old(buf)@, len as nat, 0u8)
                            &&& #[trigger] call_ensures(E::ram, (&self.engine_view(), slice), ())
                            &&& final(buf)@ == fitted(final(slice)@, len as nat, 0u8)
                        }
                },
                Err(e) => filled == Err::<(), SizeError>(e) && final(buf)@ == old(buf)@,
            },
    {
        match len_from_size(size) {
            Ok(len) => {
                fit(buf, len, 0u8);
                assert(self.engine_view() == self.ale.engine);
                self.ale.engine.ram(buf.as_mut_slice());
                // The engine wrote into a slice, which keeps its length.
                fit(buf, len, 0u8);
                Ok(())
            },
            Err(e) => Err(e),
        }
    }

    /// The emulated RAM: what [`ram_in_buf`](Self::ram_in_buf) puts into an
    /// empty buffer.
    pub fn ram(&self) -> (bytes: Result<Vec<u8>, SizeError>)
        ensures
            exists|size: i32|
                {
                    &&& #[trigger] call_ensures(E::ram_size, (&self.engine_view(),), size)
                    &&& match checked_len(size as int) {
                        Ok(len) => {
                            &&& bytes is Ok
                            &&& bytes->Ok_0@.len() == len
                            &&& exists|slice: &mut [u8]|
                                {
                                    &&& slice@ == fitted(Seq::<u8>::empty(), len as nat, 0u8)
                                    &&& #[trigger] call_ensures(
                                        E::ram,
                                        (&self.engine_view(), slice),
                                        (),
                                    )
                                    &&& bytes->Ok_0@ == fitted(final(slice)@, len as nat, 0u8)
                                }
                        },
                        Err(e) => bytes == Err::<Vec<u8>, SizeError>(e),
                    }
                },
    {
        let mut buf: Vec<u8> = Vec::new();
        match self.ram_in_buf(&mut buf) {
            Ok(()) => {
                let bytes = Ok(buf);
                assert(bytes->Ok_0@ == buf@);
                bytes
            },
            Err(e) => Err(e),
        }
    }

    /// Saves the state to the engine's own single slot, over what it held.
    pub fn save_state(&mut self)
        ensures
            final(self).rom() == old(self).rom(),
            exists|engine: &mut E|
                {
                    &&& mut_ref_current(engine) == old(self).engine_view()
                    &&& mut_ref_future(engine) == final(self).engine_view()
                    &&& #[trigger] call_ensures(E::save_state, (engine,), ())
                },
    {
        self.ale.engine.save_state();
    }

    /// Loads the state from the engine's own single slot.
    pub fn load_state(&mut self)
        ensures
            final(self).rom() == old(self).rom(),
            exists|engine: &mut E|
                {
                    &&& mut_ref_current(engine) == old(self).engine_view()
                    &&& mut_ref_future(engine) == final(self).engine_view()
                    &&& #[trigger] call_ensures(E::load_state, (engine,), ())
                },
    {
        self.ale.engine.load_state();
    }

    /// Writes the current frame as a PNG image to the file `file_name`.
    pub fn save_screen_png(&self, file_name: &str)
        requires
            is_c_text(file_name@),
        ensures
            call_ensures(E::save_screen_png, (&self.engine_view(), file_name), ()),
    {
        self.ale.engine.save_screen_png(file_name);
    }

    /// A snapshot of the game-level state. The game is not changed.
    pub fn clone_state(&self) -> (state: AleState<E>)
        ensures
            call_ensures(E::clone_state, (&self.engine_view(),), state.snapshot()),
    {
        AleState { s: self.ale.engine.clone_state() }
    }

    /// A snapshot of the whole machine. The game is not changed.
    pub fn clone_system_state(&self) -> (state: AleSystemState<E>)
        ensures
            call_ensures(E::clone_system_state, (&self.engine_view(),), state.snapshot()),
    {
        AleSystemState { s: self.ale.engine.clone_system_state() }
    }

    /// Puts the game back to the snapshot `s`, which stays as it was and can be
    /// used again.
    pub fn restore_from_cloned_state(&mut self, s: &AleState<E>)
        ensures
            final(self).rom() == old(self).rom(),
            exists|engine: &mut E|
                {
                    &&& mut_ref_current(engine) == old(self).engine_view()
                    &&& mut_ref_future(engine) == final(self).engine_view()
                    &&& #[trigger] call_ensures(E::restore_state, (engine, &s.snapshot()), ())
                },
    {
        assert(s.snapshot() == s.s);
        self.ale.engine.restore_state(&s.s);
    }

    /// Puts the whole machine back to the snapshot `s`, which stays as it was
    /// and can be used again.
    pub fn restore_from_cloned_system_state(&mut self, s: &AleSystemState<E>)
        ensures
            final(self).rom() == old(self).rom(),
            exists|engine: &mut E|
                {
                    &&& mut_ref_current(engine) == old(self).engine_view()
                    &&& mut_ref_future(engine) == final(self).engine_view()
                    &&& #[trigger] call_ensures(
                        E::restore_system_state,
                        (engine, &s.snapshot()),
                        (),
                    )
                },
    {
        assert(s.snapshot() == s.s);
        self.ale.engine.restore_system_state(&s.s);
    }
}

/// Taking a snapshot of the game-level state and restoring it right away
/// leaves the game as it was, its engine and its ROM: so frame number, lives,
/// RAM and screen are what they were. This holds for every engine whose own
/// restore puts back exactly what its snapshot took; the sessions add nothing
/// of their own in between.
pub proof fn lemma_clone_then_restore<E: Engine>(
    before: Game<E>,
    state: AleState<E>,
    after: Game<E>,
)
    requires
        forall|snapshot: E::State, engine: &mut E|
            call_ensures(E::clone_state, (&mut_ref_current(engine),), snapshot)
                && #[trigger] call_ensures(E::restore_state, (engine, &snapshot), ())
                ==> mut_ref_future(engine) == mut_ref_current(engine),
        call_ensures(Game::<E>::clone_state, (&before,), state),
        exists|game: &mut Game<E>|
            {
                &&& mut_ref_current(game) == before
                &&& mut_ref_future(game) == after
                &&& #[trigger] call_ensures(
                    Game::<E>::restore_from_cloned_state,
                    (game, &state),
                    (),
                )
            },
    ensures
        after.engine_view() == before.engine_view(),
        after.rom() == before.rom(),
        forall|frames: i32|
            call_ensures(E::frame_number, (&after.engine_view(),), frames) <==> call_ensures(
                E::frame_number,
                (&before.engine_view(),),
                frames,
            ),
        forall|lives: i32|
            call_ensures(E::lives, (&after.engine_view(),), lives) <==> call_ensures(
                E::lives,
                (&before.engine_view(),),
                lives,
            ),
        forall|slice: &mut [u8]|
            call_ensures(E::ram, (&after.engine_view(), slice), ()) <==> call_ensures(
                E::ram,
                (&before.engine_view(), slice),
                (),
            ),
        forall|slice: &mut [u8]|
            call_ensures(E::screen, (&after.engine_view(), slice), ()) <==> call_ensures(
                E::screen,
                (&before.engine_view(), slice),
                (),
            ),
{
}

impl<E: Engine> From<Game<E>> for ALE<E> {
    /// Gives up the game and hands back the engine session underneath.
    fn from(game: Game<E>) -> (ale: ALE<E>) {
        game.ale
    }
}

impl<E: Engine> vstd::std_specs::convert::FromSpecImpl<Game<E>> for ALE<E> {
    open spec fn obeys_from_spec() -> bool {
        true
    }

    open spec fn from_spec(game: Game<E>) -> ALE<E> {
        game.session()
    }
}

} // verus!
