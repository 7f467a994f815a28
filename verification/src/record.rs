//! A game as a record that can be stored and brought back.
//!
//! The record holds, in this order, the path of the ROM, the bytes of the ROM
//! file, and the whole machine as a save-state written out. Reading and writing
//! the ROM file, and putting the three fields through an encoder, is the host's
//! part; what goes into the record and what is done with one is decided here.

use vstd::prelude::*;
use crate::engine::Engine;
use crate::game::Game;
use crate::guard::InstanceGuard;
use crate::session::ALE;
use crate::size::{checked_len, fitted, size_from_len, SizeError};
use crate::state::{encode_state, AleSystemState};
use crate::text::is_c_text;

verus! {

/// A stored game.
pub struct GameRecord {
    /// The path of the ROM file.
    pub rom_path: String,
    /// The bytes of the ROM file when the game was stored.
    pub rom_bytes: Vec<u8>,
    /// The whole machine, as [`AleSystemState::encode`] writes it.
    pub system_state: Vec<i8>,
}

impl GameRecord {
    /// What the host has to write to the ROM's path before the game can be
    /// brought back: the stored bytes where no file is there, and nothing
    /// where one is. A file that is there is taken as it is.
    pub fn rom_to_write(&self, present: bool) -> (bytes: Option<&Vec<u8>>)
        ensures
            present ==> bytes is None,
            !present ==> bytes == Some(&self.rom_bytes),
    {
        if present {
            None
        } else {
            Some(&self.rom_bytes)
        }
    }
}

impl<E: Engine> Game<E> {
    /// Stores the game: the ROM's path, the bytes `rom_bytes` that the host
    /// read from the ROM file, and a snapshot of the whole machine, taken now
    /// and written out as [`encode_state`] does. Where the snapshot cannot be
    /// written out, nothing is stored.
    pub fn encode(&self, rom_bytes: Vec<u8>) -> (record: Result<GameRecord, SizeError>)
        ensures
            exists|state: E::State, serial: Result<Vec<i8>, SizeError>|
                {
                    &&& #[trigger] call_ensures(
                        E::clone_system_state,
                        (&self.engine_view(),),
                        state,
                    )
                    &&& #[trigger] call_ensures(encode_state::<E>, (&state,), serial)
                    &&& match serial {
                        Ok(bytes) => {
                            &&& record is Ok
                            &&& record->Ok_0.rom_path@ == self.rom()
                            &&& record->Ok_0.rom_bytes@ == rom_bytes@
                            &&& record->Ok_0.system_state@ == bytes@
                        },
                        Err(e) => record == Err::<GameRecord, SizeError>(e),
                    }
                },
    {
        let rom_path = self.rom_path().to_owned();
        let state = self.clone_system_state();
        let serial = state.encode();
        assert(call_ensures(encode_state::<E>, (&state.snapshot(),), serial));
        match serial {
            Ok(system_state) => Ok(GameRecord { rom_path, rom_bytes, system_state }),
            Err(e) => Err(e),
        }
    }

    /// Brings a stored game back: makes the engine of this process, loads the
    /// ROM at the stored path, rebuilds the stored snapshot and puts the
    /// machine back to it. The ROM file must be in place by now, see
    /// [`rom_to_write`](GameRecord::rom_to_write). A state too long for the
    /// engine is refused before anything is made.
    pub fn decode(record: GameRecord, guard: &mut InstanceGuard) -> (game: Result<Game<E>, SizeError>)
        requires
            !old(guard).is_held(),
            is_c_text(record.rom_path@),
        ensures
            game is Ok <==> record.system_state@.len() <= i32::MAX,
            game matches Err(e) ==> e == SizeError::TooLarge && !final(guard).is_held(),
            game matches Ok(g) ==> g.rom() == record.rom_path@ && final(guard).is_held(),
            game is Ok ==> exists|
                made: E,
                path: &str,
                loading: &mut E,
                slice: &[i8],
                len: i32,
                state: E::State,
                restoring: &mut E,
            |
                {
                    &&& #[trigger] call_ensures(E::create, (), made)
                    &&& mut_ref_current(loading) == made
                    &&& path@ == record.rom_path@
                    &&& #[trigger] call_ensures(E::load_rom, (loading, path), ())
                    &&& slice@ == record.system_state@
                    &&& len == record.system_state@.len()
                    &&& #[trigger] call_ensures(E::decode_state, (slice, len), state)
                    &&& mut_ref_current(restoring) == mut_ref_future(loading)
                    &&& #[trigger] call_ensures(E::restore_system_state, (restoring, &state), ())
                    &&& mut_ref_future(restoring) == game->Ok_0.engine_view()
                },
    {
        match size_from_len(record.system_state.len()) {
            Ok(len) => {
                let mut game = ALE::<E>::new(guard).load_rom(record.rom_path.as_str());
                let sys_state = AleSystemState::<E> {
                    s: E::decode_state(record.system_state.as_slice(), len),
                };
                game.restore_from_cloned_system_state(&sys_state);
                let game = Ok(game);
                assert(game->Ok_0.engine_view() == game->Ok_0.session().engine_view());
                game
            },
            Err(e) => Err(e),
        }
    }
}

/// A game that is stored and then brought back is the game that was stored,
/// its engine and its ROM: so RAM, screen, frame number and lives are what
/// they were when it was stored. This holds wherever the engine does its
/// part: a snapshot of the whole machine that it writes out, reads back and
/// restores, in a fresh engine that has loaded the game's ROM, gives the
/// machine as it was. The sessions hand on the path and the bytes unchanged.
pub proof fn lemma_store_then_bring_back<E: Engine>(
    game: Game<E>,
    rom_bytes: Vec<u8>,
    record: GameRecord,
    back: Game<E>,
)
    requires
        forall|
            state: E::State,
            size: i32,
            out: &mut [i8],
            slice: &[i8],
            len: i32,
            read: E::State,
            made: E,
            path: &str,
            loading: &mut E,
            restoring: &mut E,
        |
            {
                &&& call_ensures(E::clone_system_state, (&game.engine_view(),), state)
                &&& #[trigger] call_ensures(E::encode_state_len, (&state,), size)
                &&& checked_len(size as int) is Ok
                &&& out@ == fitted(Seq::<i8>::empty(), size as nat, 0i8)
                &&& #[trigger] call_ensures(E::encode_state, (&state, out), ())
                &&& slice@ == fitted(final(out)@, size as nat, 0i8)
                &&& len == slice@.len()
                &&& #[trigger] call_ensures(E::decode_state, (slice, len), read)
                &&& #[trigger] call_ensures(E::create, (), made)
                &&& mut_ref_current(loading) == made
                &&& path@ == game.rom()
                &&& #[trigger] call_ensures(E::load_rom, (loading, path), ())
                &&& mut_ref_current(restoring) == mut_ref_future(loading)
                &&& #[trigger] call_ensures(E::restore_system_state, (restoring, &read), ())
            } ==> mut_ref_future(restoring) == game.engine_view(),
        call_ensures(Game::<E>::encode, (&game, rom_bytes), Ok::<GameRecord, SizeError>(record)),
        exists|guard: &mut InstanceGuard|
            #[trigger] call_ensures(
                Game::<E>::decode,
                (record, guard),
                Ok::<Game<E>, SizeError>(back),
            ),
    ensures
        back.engine_view() == game.engine_view(),
        back.rom() == game.rom(),
{
}

} // verus!
