use vstd::prelude::*;

verus! {

/// A named scheduling point: startup routines run exactly once, before any
/// update routine; update routines run once per tick, every tick.
#[derive(Clone, Copy, PartialEq, Eq, Structural, Debug)]
pub enum Phase {
    Startup,
    Update,
}

/// A routine the scheduler can invoke. The driver dispatches on this value;
/// what each routine does to the store, the timer and the output is fixed by
/// `crate::driver::apply_routine`.
#[derive(Clone, Copy, PartialEq, Eq, Structural, Debug)]
pub enum Routine {
    /// Startup routine: spawns the initial person-marked, named entities.
    AddPeople,
    /// Update routine: renames the first matching person.
    UpdatePeople,
    /// Update routine: advances the timer and greets on interval boundaries.
    GreetPeople,
}

/// Holds, for each phase, the ordered list of registered routines. List
/// order is the declared total order: the driver runs each routine to
/// completion, all its effects visible, before the next one begins.
pub struct Schedule {
    pub startup: Vec<Routine>,
    pub update: Vec<Routine>,
}

impl Schedule {
    /// A schedule with no routines registered.
    pub fn new() -> (s: Schedule)
        ensures
            s.startup@ == Seq::<Routine>::empty(),
            s.update@ == Seq::<Routine>::empty(),
    {
        Schedule { startup: Vec::new(), update: Vec::new() }
    }

    /// Registers a routine at the end of the given phase's order.
    pub fn add_system(&mut self, phase: Phase, r: Routine)
        ensures
            final(self).startup@ == (match phase {
                Phase::Startup => old(self).startup@.push(r),
                Phase::Update => old(self).startup@,
            }),
            final(self).update@ == (match phase {
                Phase::Startup => old(self).update@,
                Phase::Update => old(self).update@.push(r),
            }),
    {
        match phase {
            Phase::Startup => self.startup.push(r),
            Phase::Update => self.update.push(r),
        }
    }

    /// Registers two routines as a chain: `first` stands immediately before
    /// `second` in the phase's order, so on every run `first` completes
    /// fully before `second` begins, with no interleaving.
    pub fn add_chain(&mut self, phase: Phase, first: Routine, second: Routine)
        ensures
            final(self).startup@ == (match phase {
                Phase::Startup => old(self).startup@.push(first).push(second),
                Phase::Update => old(self).startup@,
            }),
            final(self).update@ == (match phase {
                Phase::Startup => old(self).update@,
                Phase::Update => old(self).update@.push(first).push(second),
            }),
    {
        self.add_system(phase, first);
        self.add_system(phase, second);
    }
}

} // verus!
