//! The life of a handle that the engine counts references to.
//!
//! A context, a file reader and an event handler all live the same way: the
//! engine allocates the object with one reference, every further wrapper adds
//! one, every released wrapper gives one back, and the engine destroys the
//! object (for a callback registration: calls its destroy function) when the
//! last one is given back.
use vstd::prelude::*;

verus! {

/// Something that happens to a counted handle.
#[derive(Clone, Copy, PartialEq, Eq, Structural, Debug)]
pub enum HandleEvent {
    /// The engine allocated the object and the first wrapper took it.
    Allocate,
    /// A wrapper was cloned.
    Clone,
    /// A wrapper was released.
    Release,
    /// The engine called back into the host through the object.
    Callback,
}

/// Where a handle is in its life.
#[derive(Clone, Copy, PartialEq, Eq, Structural, Debug)]
pub enum Phase {
    Uninitialized,
    Allocated,
    Released,
}

/// The counts of a handle's life so far.
pub struct Counts {
    pub increments: nat,
    pub decrements: nat,
    pub destroys: nat,
    pub callbacks: nat,
}

impl Counts {
    /// The counts before anything happened.
    pub open spec fn initial() -> Counts {
        Counts { increments: 0, decrements: 0, destroys: 0, callbacks: 0 }
    }

    /// The phase these counts stand for.
    pub open spec fn phase(self) -> Phase {
        if self.increments == 0 {
            Phase::Uninitialized
        } else if self.decrements < self.increments {
            Phase::Allocated
        } else {
            Phase::Released
        }
    }

    /// The number of wrappers that still owe a release.
    pub open spec fn live(self) -> int {
        self.increments - self.decrements
    }

    /// The counts after `event`, or nothing where the single-release
    /// discipline forbids it: a second allocation, or any use of a handle
    /// that is not allocated or was released.
    pub open spec fn step(self, event: HandleEvent) -> Option<Counts> {
        match event {
            HandleEvent::Allocate => if self.phase() == Phase::Uninitialized {
                Some(Counts { increments: 1, ..self })
            } else {
                None
            },
            HandleEvent::Clone => if self.phase() == Phase::Allocated {
                Some(Counts { increments: self.increments + 1, ..self })
            } else {
                None
            },
            HandleEvent::Release => if self.phase() == Phase::Allocated {
                Some(
                    Counts {
                        decrements: self.decrements + 1,
                        destroys: if self.decrements + 1 == self.increments {
                            self.destroys + 1
                        } else {
                            self.destroys
                        },
                        ..self
                    },
                )
            } else {
                None
            },
            HandleEvent::Callback => if self.phase() == Phase::Allocated {
                Some(Counts { callbacks: self.callbacks + 1, ..self })
            } else {
                None
            },
        }
    }
}

/// The counts after a run of events from the start, or nothing where one of
/// them was forbidden.
pub open spec fn run(events: Seq<HandleEvent>) -> Option<Counts>
    decreases events.len(),
{
    if events.len() == 0 {
        Some(Counts::initial())
    } else {
        match run(events.drop_last()) {
            Some(counts) => counts.step(events.last()),
            None => None,
        }
    }
}

/// How often `event` occurs in `events`.
pub open spec fn occurrences(events: Seq<HandleEvent>, event: HandleEvent) -> nat
    decreases events.len(),
{
    if events.len() == 0 {
        0
    } else {
        occurrences(events.drop_last(), event) + if events.last() == event {
            1nat
        } else {
            0nat
        }
    }
}

/// The running ledger of one handle.
pub struct Ledger {
    increments: u64,
    decrements: u64,
    destroys: u64,
    callbacks: u64,
}

impl View for Ledger {
    type V = Counts;

    closed spec fn view(&self) -> Counts {
        Counts {
            increments: self.increments as nat,
            decrements: self.decrements as nat,
            destroys: self.destroys as nat,
            callbacks: self.callbacks as nat,
        }
    }
}

impl Ledger {
    #[verifier::type_invariant]
    spec fn consistent(self) -> bool {
        &&& self.decrements <= self.increments
        &&& self.destroys == if self.increments > 0 && self.decrements == self.increments {
            1u64
        } else {
            0u64
        }
    }

    /// The ledger of a handle to which nothing has happened yet.
    pub fn new() -> (ledger: Ledger)
        ensures
            ledger@ == Counts::initial(),
    {
        Ledger { increments: 0, decrements: 0, destroys: 0, callbacks: 0 }
    }

    /// The phase the handle is in.
    pub fn phase(&self) -> (phase: Phase)
        ensures
            phase == self@.phase(),
    {
        if self.increments == 0 {
            Phase::Uninitialized
        } else if self.decrements < self.increments {
            Phase::Allocated
        } else {
            Phase::Released
        }
    }

    /// The number of references taken so far.
    pub fn increments(&self) -> (n: u64)
        ensures
            n == self@.increments,
    {
        self.increments
    }

    /// The number of references given back so far.
    pub fn decrements(&self) -> (n: u64)
        ensures
            n == self@.decrements,
            n <= self@.increments,
    {
        proof {
            use_type_invariant(self);
        }
        self.decrements
    }

    /// The number of callbacks that fired so far.
    pub fn callbacks(&self) -> (n: u64)
        ensures
            n == self@.callbacks,
    {
        self.callbacks
    }

    /// Whether the engine has destroyed the object, which it does exactly
    /// when the last reference is given back.
    pub fn destroyed(&self) -> (b: bool)
        ensures
            b == (self@.destroys == 1),
            b == (self@.phase() == Phase::Released),
    {
        proof {
            use_type_invariant(self);
        }
        self.destroys == 1
    }

    /// Records an event if the discipline allows it, and says whether it
    /// did. A forbidden event leaves the ledger as it was.
    pub fn record(&mut self, event: HandleEvent) -> (allowed: bool)
        requires
            event == HandleEvent::Clone ==> old(self)@.increments < u64::MAX,
            event == HandleEvent::Callback ==> old(self)@.callbacks < u64::MAX,
        ensures
            allowed == old(self)@.step(event) is Some,
            allowed ==> Some(final(self)@) == old(self)@.step(event),
            !allowed ==> final(self)@ == old(self)@,
    {
        proof {
            use_type_invariant(&*self);
        }
        let phase = self.phase();
        match event {
            HandleEvent::Allocate => {
                if phase == Phase::Uninitialized {
                    self.increments = 1;
                    true
                } else {
                    false
                }
            },
            HandleEvent::Clone => {
                if phase == Phase::Allocated {
                    self.increments = self.increments + 1;
                    true
                } else {
                    false
                }
            },
            HandleEvent::Release => {
                if phase == Phase::Allocated {
                    let decrements: u64 = self.decrements + 1;
                    let destroys: u64 = if decrements == self.increments {
                        1
                    } else {
                        0
                    };
                    *self = Ledger {
                        increments: self.increments,
                        decrements,
                        destroys,
                        callbacks: self.callbacks,
                    };
                    true
                } else {
                    false
                }
            },
            HandleEvent::Callback => {
                if phase == Phase::Allocated {
                    self.callbacks = self.callbacks + 1;
                    true
                } else {
                    false
                }
            },
        }
    }
}

/// Every run the discipline allows keeps the books straight: the increments
/// are the allocation and the clones, the decrements are the releases and
/// never exceed the increments, the object was destroyed once if the handle
/// is released and not at all before, and the callbacks are counted apart.
pub proof fn lemma_run_counts(events: Seq<HandleEvent>)
    ensures
        run(events) matches Some(c) ==> {
            &&& c.increments == occurrences(events, HandleEvent::Allocate) + occurrences(
                events,
                HandleEvent::Clone,
            )
            &&& occurrences(events, HandleEvent::Allocate) == if c.increments > 0 {
                1nat
            } else {
                0nat
            }
            &&& c.decrements == occurrences(events, HandleEvent::Release)
            &&& c.callbacks == occurrences(events, HandleEvent::Callback)
            &&& c.decrements <= c.increments
            &&& c.destroys == if c.phase() == Phase::Released { 1nat } else { 0nat }
        },
    decreases events.len(),
{
    if events.len() > 0 {
        lemma_run_counts(events.drop_last());
    }
}

/// No leak and no double free: over the whole life of a successfully
/// allocated handle, from its allocation to the release of its last wrapper,
/// there are as many decrements as increments, one for the allocation and one
/// more for every clone.
pub proof fn lemma_releases_balance_references(events: Seq<HandleEvent>)
    requires
        run(events) matches Some(c) && c.phase() == Phase::Released,
    ensures
        occurrences(events, HandleEvent::Release) == 1 + occurrences(events, HandleEvent::Clone),
        run(events)->0.decrements == run(events)->0.increments,
        run(events)->0.live() == 0,
{
    lemma_run_counts(events);
}

/// The destroy function of a callback registration runs exactly once over
/// the registration's life, however many callbacks fired in between, and it
/// has not run while a wrapper still holds the registration.
pub proof fn lemma_destroyed_exactly_once(events: Seq<HandleEvent>)
    ensures
        run(events) matches Some(c) ==> (c.phase() == Phase::Released ==> c.destroys == 1) && (
        c.phase() != Phase::Released ==> c.destroys == 0),
{
    lemma_run_counts(events);
}

/// Once the last wrapper is released nothing more may happen to the handle:
/// no further release, clone or callback is allowed.
pub proof fn lemma_released_is_final(c: Counts, event: HandleEvent)
    requires
        c.phase() == Phase::Released,
    ensures
        c.step(event) is None,
{
}

} // verus!
