//! Save-states: snapshots of the emulator that live outside the engine.
//!
//! A snapshot is owned by exactly one handle. Restoring from a handle leaves
//! it as it was, so one snapshot serves any number of rollbacks. Written out,
//! a snapshot is a run of bytes whose meaning only the engine knows.

use vstd::prelude::*;
use crate::engine::Engine;
use crate::size::{checked_len, fit, fitted, len_from_size, size_from_len, SizeError};

verus! {

/// A snapshot of the game-level state.
pub struct AleState<E: Engine> {
    pub(crate) s: E::State,
}

/// A snapshot of the whole machine, enough to resume exactly where it was
/// taken, in another process too.
pub struct AleSystemState<E: Engine> {
    pub(crate) s: E::State,
}

/// Writes the snapshot out. The engine is asked for the length first and then
/// fills a buffer of exactly that length, as [`encode_state_sized`] tells.
pub fn encode_state<E: Engine>(s: &E::State) -> (serial: Result<Vec<i8>, SizeError>)
    ensures
        exists|size: i32|
            {
                &&& #[trigger] call_ensures(E::encode_state_len, (s,), size)
                &&& match checked_len(size as int) {
                    Ok(len) => {
                        &&& serial is Ok
                        &&& serial->Ok_0@.len() == len
                        &&& exists|slice: &mut [i8]|
                            {
                                &&& slice@ == fitted(Seq::<i8>::empty(), len as nat, 0i8)
                                &&& #[trigger] call_ensures(E::encode_state, (s, slice), ())
                                &&& serial->Ok_0@ == fitted(final(slice)@, len as nat, 0i8)
                            }
                    },
                    Err(e) => serial == Err::<Vec<i8>, SizeError>(e),
                }
            },
{
    let size = E::encode_state_len(s);
    encode_state_sized::<E>(s, size)
}

/// Writes the snapshot out into exactly `size` bytes, `size` being the length
/// that the engine gave for it. The engine writes into a slice of `size`
/// zeros, and the result is what stands there afterwards.
pub fn encode_state_sized<E: Engine>(s: &E::State, size: i32) -> (serial: Result<
    Vec<i8>,
    SizeError,
>)
    ensures
        match checked_len(size as int) {
            Ok(len) => {
                &&& serial is Ok
                &&& serial->Ok_0@.len() == len
                &&& exists|slice: &mut [i8]|
                    {
                        &&& slice@ == fitted(Seq::<i8>::empty(), len as nat, 0i8)
                        &&& #[trigger] call_ensures(E::encode_state, (s, slice), ())
                        &&& serial->Ok_0@ == fitted(final(slice)@, len as nat, 0i8)
                    }
            },
            Err(e) => serial == Err::<Vec<i8>, SizeError>(e),
        },
{
    match len_from_size(size) {
        Ok(len) => {
            let mut buf: Vec<i8> = Vec::new();
            fit(&mut buf, len, 0i8);
            E::encode_state(s, buf.as_mut_slice());
            // The engine wrote into a slice, which keeps its length.
            fit(&mut buf, len, 0i8);
            Ok(buf)
        },
        Err(e) => Err(e),
    }
}

/// Rebuilds a snapshot from bytes written by [`encode_state`]. The bytes go to
/// the engine as they are, with their number; more of them than the engine's
/// length type can count are refused.
pub fn decode_state<E: Engine>(serialized: &Vec<i8>) -> (s: Result<E::State, SizeError>)
    ensures
        s is Ok <==> serialized@.len() <= i32::MAX,
        s is Err ==> s->Err_0 == SizeError::TooLarge,
        s is Ok ==> exists|slice: &[i8], len: i32|
            {
                &&& slice@ == serialized@
                &&& len == serialized@.len()
                &&& #[trigger] call_ensures(E::decode_state, (slice, len), s->Ok_0)
            },
{
    match size_from_len(serialized.len()) {
        Ok(len) => {
            let slice = serialized.as_slice();
            let state = E::decode_state(slice, len);
            let s = Ok(state);
            assert(call_ensures(E::decode_state, (slice, len), s->Ok_0));
            s
        },
        Err(e) => Err(e),
    }
}

impl<E: Engine> AleState<E> {
    /// The engine's snapshot in this handle.
    pub open(crate) spec fn snapshot(&self) -> E::State {
        self.s
    }

    /// The snapshot as bytes, as [`encode_state`] writes it.
    pub fn encode(&self) -> (serial: Result<Vec<i8>, SizeError>)
        ensures
            call_ensures(encode_state::<E>, (&self.snapshot(),), serial),
    {
        encode_state::<E>(&self.s)
    }

    /// The snapshot that `serial` holds, as [`decode_state`] reads it.
    pub fn decode(serial: Vec<i8>) -> (state: Result<Self, SizeError>)
        ensures
            state is Ok <==> serial@.len() <= i32::MAX,
            state is Err ==> state->Err_0 == SizeError::TooLarge,
            state is Ok ==> exists|slice: &[i8], len: i32|
                {
                    &&& slice@ == serial@
                    &&& len == serial@.len()
                    &&& #[trigger] call_ensures(
                        E::decode_state,
                        (slice, len),
                        state->Ok_0.snapshot(),
                    )
                },
    {
        match decode_state::<E>(&serial) {
            Ok(s) => {
                let state = Ok(AleState { s });
                assert(state->Ok_0.snapshot() == s);
                state
            },
            Err(e) => Err(e),
        }
    }
}

impl<E: Engine> AleSystemState<E> {
    /// The engine's snapshot in this handle.
    pub open(crate) spec fn snapshot(&self) -> E::State {
        self.s
    }

    /// The snapshot as bytes, as [`encode_state`] writes it.
    pub fn encode(&self) -> (serial: Result<Vec<i8>, SizeError>)
        ensures
            call_ensures(encode_state::<E>, (&self.snapshot(),), serial),
    {
        encode_state::<E>(&self.s)
    }

    /// The snapshot that `serial` holds, as [`decode_state`] reads it.
    pub fn decode(serial: Vec<i8>) -> (state: Result<Self, SizeError>)
        ensures
            state is Ok <==> serial@.len() <= i32::MAX,
            state is Err ==> state->Err_0 == SizeError::TooLarge,
            state is Ok ==> exists|slice: &[i8], len: i32|
                {
                    &&& slice@ == serial@
                    &&& len == serial@.len()
                    &&& #[trigger] call_ensures(
                        E::decode_state,
                        (slice, len),
                        state->Ok_0.snapshot(),
                    )
                },
    {
        match decode_state::<E>(&serial) {
            Ok(s) => {
                let state = Ok(AleSystemState { s });
                assert(state->Ok_0.snapshot() == s);
                state
            },
            Err(e) => Err(e),
        }
    }
}

} // verus!
