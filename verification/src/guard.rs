//! The single-instance guard.
//!
//! The native engine keeps global state, so a process may hold one live engine
//! at a time. The guard is the flag that says whether one exists. Making a
//! session tests and sets the flag in one step; ending the session clears it.
//!
//! A process has one guard. It is a plain value behind `&mut`, so no two uses
//! of it can overlap; a host that shares it between threads puts it behind
//! its own lock.

use vstd::prelude::*;

verus! {

/// The message for an attempt to make a second engine while one is alive.
pub const INSTANCE_EXISTS: &'static str =
    "An ALE instance already exists. \nThe ALE currently uses global statics and is not thread safe, if you need multiple instances use a script to start multiple, separate processes.\nIf you need to run multiple ALEs in sequence on separate threads, arrange the synchronization yourself (e.g. mutexes or sending over a channel).\n";

/// The process-wide flag: set while an engine session, or a game made from
/// one, is alive.
pub struct InstanceGuard {
    held: bool,
}

impl InstanceGuard {
    /// Whether an engine is alive.
    pub closed spec fn is_held(&self) -> bool {
        self.held
    }

    /// The guard of a process that has no engine yet.
    pub fn new() -> (guard: Self)
        ensures
            !guard.is_held(),
    {
        InstanceGuard { held: false }
    }

    /// Whether an engine is alive.
    pub fn held(&self) -> (held: bool)
        ensures
            held == self.is_held(),
    {
        self.held
    }

    /// Tests and sets the flag in one step. The answer is whether the caller
    /// may make an engine: the flag was clear. The flag is set afterwards
    /// either way.
    pub fn acquire(&mut self) -> (granted: bool)
        ensures
            granted == granted_when(old(self).is_held()),
            final(self).is_held(),
    {
        let was = self.held;
        self.held = true;
        !was
    }

    /// Clears the flag, once the engine has been released.
    pub fn release(&mut self)
        ensures
            !final(self).is_held(),
    {
        self.held = false;
    }
}

/// The verdict of the guard on an attempt to make an engine, from the flag at
/// that moment.
pub open spec fn granted_when(held: bool) -> bool {
    !held
}

/// What can happen to the sessions of a process.
pub enum LifeEvent {
    /// An attempt to make an engine session.
    Construct,
    /// The end of a live session, be it still an engine session or a game by now.
    Destroy,
}

/// A process as the guard sees it.
pub struct Process {
    /// The guard's flag.
    pub held: bool,
    /// How many sessions are alive.
    pub live: nat,
}

/// The process before anything has happened.
pub open spec fn start() -> Process {
    Process { held: false, live: 0 }
}

/// Whether `event` is refused in `p`: a construction while the flag is set
/// fails, and there is nothing to destroy where no session is alive.
pub open spec fn refused(p: Process, event: LifeEvent) -> bool {
    match event {
        LifeEvent::Construct => !granted_when(p.held),
        LifeEvent::Destroy => p.live == 0,
    }
}

/// The process after `event`. A refused event changes nothing.
pub open spec fn step(p: Process, event: LifeEvent) -> Process {
    if refused(p, event) {
        p
    } else {
        match event {
            LifeEvent::Construct => Process { held: true, live: p.live + 1 },
            LifeEvent::Destroy => Process { held: false, live: (p.live - 1) as nat },
        }
    }
}

/// The process after a whole history of events, oldest first.
pub open spec fn after(events: Seq<LifeEvent>) -> Process
    decreases events.len(),
{
    if events.len() == 0 {
        start()
    } else {
        step(after(events.drop_last()), events.last())
    }
}

/// After any history of constructions and destructions at most one session is
/// alive, and the flag is set exactly while one is.
pub proof fn lemma_at_most_one_live(events: Seq<LifeEvent>)
    ensures
        after(events).live <= 1,
        after(events).held <==> after(events).live == 1,
    decreases events.len(),
{
    if events.len() > 0 {
        lemma_at_most_one_live(events.drop_last());
    }
}

/// At every instant of any history at most one session is alive.
pub proof fn lemma_at_most_one_live_throughout(events: Seq<LifeEvent>, instant: int)
    requires
        0 <= instant <= events.len(),
    ensures
        after(events.take(instant)).live <= 1,
{
    lemma_at_most_one_live(events.take(instant));
}

/// While a session is alive, an attempt to make another is refused and leaves
/// the process as it was, whatever came before.
pub proof fn lemma_second_construction_refused(events: Seq<LifeEvent>)
    requires
        after(events).live >= 1,
    ensures
        refused(after(events), LifeEvent::Construct),
        after(events.push(LifeEvent::Construct)) == after(events),
{
    lemma_at_most_one_live(events);
    assert(events.push(LifeEvent::Construct).drop_last() =~= events);
}

/// Once the live session has ended, an engine can be made again.
pub proof fn lemma_construction_after_destruction(events: Seq<LifeEvent>)
    requires
        after(events).live >= 1,
    ensures
        !refused(after(events.push(LifeEvent::Destroy)), LifeEvent::Construct),
{
    lemma_at_most_one_live(events);
    assert(events.push(LifeEvent::Destroy).drop_last() =~= events);
}

} // verus!
