use crate::plugin::{
    add_people, add_people_view, greet_people, greeting_of, greetings_of, lines_view, replacement_name,
    target_name, update_people,
};
use crate::schedule::{Phase, Routine, Schedule};
use crate::store::{
    lemma_find_from_props, lemma_person_names_has, lemma_rename_first_wf, ComponentStore,
    StoreView,
};
use crate::timer::{spec_tick, Timer, TimerMode};
use vstd::prelude::*;

verus! {

/// The store after one routine, ignoring timer and output. Only the spawn
/// routine creates entities; only the mutation routine changes a name; the
/// greeting routine reads the store without changing it.
pub open spec fn store_after(s: StoreView, r: Routine) -> StoreView {
    match r {
        Routine::AddPeople => add_people_view(s),
        Routine::UpdatePeople => s.rename_first(target_name(), replacement_name()),
        Routine::GreetPeople => s,
    }
}

/// One routine's full effect on the store and the timer, together with the
/// lines it emits during a tick with the given delta.
pub open spec fn apply_routine(s: StoreView, t: Timer, r: Routine, delta: u64) -> (
    StoreView,
    Timer,
    Seq<Seq<char>>,
) {
    match r {
        Routine::AddPeople => (add_people_view(s), t, Seq::empty()),
        Routine::UpdatePeople => (
            s.rename_first(target_name(), replacement_name()),
            t,
            Seq::empty(),
        ),
        Routine::GreetPeople => (
            s,
            spec_tick(t, delta),
            if spec_tick(t, delta).just_finished {
                greetings_of(s)
            } else {
                Seq::empty()
            },
        ),
    }
}

/// Runs the routines in list order, each one seeing every effect of its
/// predecessors, and concatenates their output in that same order.
pub open spec fn run_routines(s: StoreView, t: Timer, rs: Seq<Routine>, delta: u64) -> (
    StoreView,
    Timer,
    Seq<Seq<char>>,
)
    decreases rs.len(),
{
    if rs.len() == 0 {
        (s, t, Seq::<Seq<char>>::empty())
    } else {
        let first = apply_routine(s, t, rs[0], delta);
        let rest = run_routines(first.0, first.1, rs.drop_first(), delta);
        (rest.0, rest.1, first.2 + rest.2)
    }
}

/// Machine-limit bound for a routine list: every spawn that the list will
/// perform leaves room for its three fresh entity ids.
pub open spec fn routines_fit(s: StoreView, rs: Seq<Routine>) -> bool
    decreases rs.len(),
{
    if rs.len() == 0 {
        true
    } else {
        &&& (rs[0] is AddPeople ==> s.next + 3 <= u64::MAX)
        &&& routines_fit(store_after(s, rs[0]), rs.drop_first())
    }
}

/// Running a list extended by one routine is running the list, then that
/// routine on the list's outcome, its output appended last.
proof fn lemma_run_snoc(s: StoreView, t: Timer, rs: Seq<Routine>, r: Routine, delta: u64)
    ensures
        run_routines(s, t, rs.push(r), delta) == ({
            let mid = run_routines(s, t, rs, delta);
            let last = apply_routine(mid.0, mid.1, r, delta);
            (last.0, last.1, mid.2 + last.2)
        }),
    decreases rs.len(),
{
    let mid = run_routines(s, t, rs, delta);
    let last = apply_routine(mid.0, mid.1, r, delta);
    let p = rs.push(r);
    if rs.len() == 0 {
        assert(mid == (s, t, Seq::<Seq<char>>::empty()));
        assert(p[0] == r);
        assert(p.drop_first() =~= Seq::<Routine>::empty());
        let first = apply_routine(s, t, p[0], delta);
        assert(first == last);
        assert(run_routines(first.0, first.1, p.drop_first(), delta) == (
            first.0,
            first.1,
            Seq::<Seq<char>>::empty(),
        ));
        assert(run_routines(s, t, p, delta) == (
            first.0,
            first.1,
            first.2 + Seq::<Seq<char>>::empty(),
        ));
        assert(first.2 + Seq::<Seq<char>>::empty() =~= first.2);
        assert(mid.2 + last.2 =~= last.2);
    } else {
        let first = apply_routine(s, t, rs[0], delta);
        assert(p[0] == rs[0]);
        assert(p.drop_first() =~= rs.drop_first().push(r));
        lemma_run_snoc(first.0, first.1, rs.drop_first(), r, delta);
        let midr = run_routines(first.0, first.1, rs.drop_first(), delta);
        let lastr = apply_routine(midr.0, midr.1, r, delta);
        assert(mid == (midr.0, midr.1, first.2 + midr.2));
        assert(lastr == last);
        assert(run_routines(s, t, p, delta) == (
            lastr.0,
            lastr.1,
            first.2 + (midr.2 + lastr.2),
        ));
        assert(first.2 + (midr.2 + lastr.2) =~= (first.2 + midr.2) + lastr.2);
    }
}

/// Runs a routine list in its declared order against the store and timer.
/// Each routine is handed exactly the resources its dispatch arm declares:
/// the mutation routine mutable access to the store alone, the greeting
/// routine the tick's delta, the timer, and read access to the store.
fn run_list(
    store: &mut ComponentStore,
    timer: &mut Timer,
    routines: &Vec<Routine>,
    delta: u64,
) -> (out: Vec<String>)
    requires
        old(store)@.wf(),
        old(timer).wf(),
        routines_fit(old(store)@, routines@),
    ensures
        final(store)@ == run_routines(old(store)@, *old(timer), routines@, delta).0,
        *final(timer) == run_routines(old(store)@, *old(timer), routines@, delta).1,
        lines_view(out@) == run_routines(old(store)@, *old(timer), routines@, delta).2,
        final(store)@.wf(),
        final(timer).wf(),
{
    let ghost s0 = store@;
    let ghost t0 = *timer;
    let ghost rs = routines@;
    let mut out: Vec<String> = Vec::new();
    let n: usize = routines.len();
    let mut i: usize = 0;
    proof {
        assert(rs.take(0) =~= Seq::<Routine>::empty());
        assert(rs.skip(0) =~= rs);
        assert(lines_view(out@) =~= Seq::<Seq<char>>::empty());
    }
    while i < n
        invariant
            i <= n,
            n == rs.len(),
            rs == routines@,
            s0.wf(),
            store@.wf(),
            timer.wf(),
            store@ == run_routines(s0, t0, rs.take(i as int), delta).0,
            *timer == run_routines(s0, t0, rs.take(i as int), delta).1,
            lines_view(out@) == run_routines(s0, t0, rs.take(i as int), delta).2,
            routines_fit(store@, rs.skip(i as int)),
        decreases n - i,
    {
        let r = routines[i];
        let ghost pre_s = store@;
        let ghost pre_t = *timer;
        let ghost pre_out = lines_view(out@);
        proof {
            assert(rs.skip(i as int)[0] == rs[i as int]);
            assert(rs.skip(i as int).drop_first() =~= rs.skip(i as int + 1));
        }
        match r {
            Routine::AddPeople => {
                add_people(store);
            },
            Routine::UpdatePeople => {
                update_people(store);
                proof {
                    lemma_rename_first_wf(pre_s, target_name(), replacement_name());
                }
            },
            Routine::GreetPeople => {
                let mut lines = greet_people(delta, timer, store);
                out.append(&mut lines);
            },
        }
        proof {
            let step = apply_routine(pre_s, pre_t, rs[i as int], delta);
            assert(store@ == step.0);
            assert(*timer == step.1);
            assert(lines_view(out@) =~= pre_out + step.2);
            lemma_run_snoc(s0, t0, rs.take(i as int), rs[i as int], delta);
            assert(rs.take(i as int + 1) =~= rs.take(i as int).push(rs[i as int]));
            assert(store@ == store_after(pre_s, rs[i as int]));
        }
        i = i + 1;
    }
    proof {
        assert(rs.take(n as int) =~= rs);
    }
    out
}

/// Owns the component store, the shared greeting timer and the schedule,
/// for the lifetime of the application, and drives the phase sequence:
/// the startup phase once, then one update phase per tick.
pub struct App {
    pub store: ComponentStore,
    pub timer: Timer,
    pub schedule: Schedule,
    /// Whether the startup phase has already run.
    pub started: bool,
}

impl App {
    /// Both owned resources are in a usable state.
    pub open spec fn wf(self) -> bool {
        &&& self.store@.wf()
        &&& self.timer.wf()
    }

    /// A fresh application: empty store, empty schedule, startup still
    /// pending, and a placeholder one-shot timer of one time unit that
    /// stands until a plugin installs the real resource.
    pub fn new() -> (app: App)
        ensures
            app.wf(),
            !app.started,
            app.store@ == (StoreView {
                persons: Seq::<u64>::empty(),
                names: Seq::<(u64, Seq<char>)>::empty(),
                next: 0,
            }),
            app.timer == (Timer {
                interval: 1,
                elapsed: 0,
                mode: TimerMode::Once,
                finished: false,
                just_finished: false,
            }),
            app.schedule.startup@ == Seq::<Routine>::empty(),
            app.schedule.update@ == Seq::<Routine>::empty(),
    {
        App {
            store: ComponentStore::new(),
            timer: Timer::new(1, TimerMode::Once),
            schedule: Schedule::new(),
            started: false,
        }
    }

    /// Installs the shared timer resource, replacing the current one.
    pub fn insert_timer(&mut self, t: Timer)
        requires
            t.wf(),
        ensures
            final(self).timer == t,
            final(self).store == old(self).store,
            final(self).schedule == old(self).schedule,
            final(self).started == old(self).started,
    {
        self.timer = t;
    }

    /// Registers a routine at the end of the given phase's order.
    pub fn add_system(&mut self, phase: Phase, r: Routine)
        ensures
            final(self).schedule.startup@ == (match phase {
                Phase::Startup => old(self).schedule.startup@.push(r),
                Phase::Update => old(self).schedule.startup@,
            }),
            final(self).schedule.update@ == (match phase {
                Phase::Startup => old(self).schedule.update@,
                Phase::Update => old(self).schedule.update@.push(r),
            }),
            final(self).store == old(self).store,
            final(self).timer == old(self).timer,
            final(self).started == old(self).started,
    {
        self.schedule.add_system(phase, r);
    }

    /// Registers two routines as a chain in the given phase: the first
    /// completes fully, all effects visible, before the second begins.
    pub fn add_chain(&mut self, phase: Phase, first: Routine, second: Routine)
        ensures
            final(self).schedule.startup@ == (match phase {
                Phase::Startup => old(self).schedule.startup@.push(first).push(second),
                Phase::Update => old(self).schedule.startup@,
            }),
            final(self).schedule.update@ == (match phase {
                Phase::Startup => old(self).schedule.update@,
                Phase::Update => old(self).schedule.update@.push(first).push(second),
            }),
            final(self).store == old(self).store,
            final(self).timer == old(self).timer,
            final(self).started == old(self).started,
    {
        self.schedule.add_chain(phase, first, second);
    }

    /// Runs the startup phase exactly once: every startup routine in
    /// registration order, with a zero time delta, before any tick.
    pub fn run_startup(&mut self) -> (out: Vec<String>)
        requires
            old(self).wf(),
            !old(self).started,
            routines_fit(old(self).store@, old(self).schedule.startup@),
        ensures
            final(self).wf(),
            final(self).started,
            final(self).schedule == old(self).schedule,
            final(self).store@ == run_routines(
                old(self).store@,
                old(self).timer,
                old(self).schedule.startup@,
                0,
            ).0,
            final(self).timer == run_routines(
                old(self).store@,
                old(self).timer,
                old(self).schedule.startup@,
                0,
            ).1,
            lines_view(out@) == run_routines(
                old(self).store@,
                old(self).timer,
                old(self).schedule.startup@,
                0,
            ).2,
    {
        let out = run_list(&mut self.store, &mut self.timer, &self.schedule.startup, 0);
        self.started = true;
        out
    }

    /// One tick: runs every update routine in declared order, each one
    /// completing before the next begins, and returns the lines emitted,
    /// in order. `delta` is the time elapsed since the previous tick.
    pub fn tick(&mut self, delta: u64) -> (out: Vec<String>)
        requires
            old(self).wf(),
            old(self).started,
            routines_fit(old(self).store@, old(self).schedule.update@),
        ensures
            final(self).wf(),
            final(self).started,
            final(self).schedule == old(self).schedule,
            final(self).store@ == run_routines(
                old(self).store@,
                old(self).timer,
                old(self).schedule.update@,
                delta,
            ).0,
            final(self).timer == run_routines(
                old(self).store@,
                old(self).timer,
                old(self).schedule.update@,
                delta,
            ).1,
            lines_view(out@) == run_routines(
                old(self).store@,
                old(self).timer,
                old(self).schedule.update@,
                delta,
            ).2,
    {
        run_list(&mut self.store, &mut self.timer, &self.schedule.update, delta)
    }
}

/// The update-phase routine order that `crate::plugin::HelloPlugin`
/// registers: mutation first, greeting second.
pub open spec fn hello_update_routines() -> Seq<Routine> {
    seq![Routine::UpdatePeople, Routine::GreetPeople]
}

/// Mutation ordering: over one tick of the chained update-then-greet
/// order, the first person-marked entity named with the target is renamed
/// before the greeting routine reads the store. After the tick its name is
/// the replacement, and on a tick that crosses the timer boundary the
/// emitted lines greet the renamed value, not the pre-mutation one.
pub proof fn lemma_mutation_precedes_greeting(s: StoreView, t: Timer, delta: u64)
    requires
        s.find_first(target_name()) < s.names.len(),
    ensures
        ({
            let f = s.find_first(target_name());
            let r = run_routines(s, t, hello_update_routines(), delta);
            &&& r.0.names[f] == (s.names[f].0, replacement_name())
            &&& r.1 == spec_tick(t, delta)
            &&& (spec_tick(t, delta).just_finished ==> r.2.contains(
                greeting_of(replacement_name()),
            ))
        }),
{
    let f = s.find_first(target_name());
    lemma_find_from_props(s, target_name(), 0);
    let rs = hello_update_routines();
    let s1 = s.rename_first(target_name(), replacement_name());
    let t1 = spec_tick(t, delta);
    assert(rs[0] == Routine::UpdatePeople);
    let rs1 = rs.drop_first();
    assert(rs1 =~= seq![Routine::GreetPeople]);
    assert(rs1[0] == Routine::GreetPeople);
    let rs2 = rs1.drop_first();
    assert(rs2.len() == 0);
    let o = apply_routine(s1, t, Routine::GreetPeople, delta).2;
    assert(run_routines(s1, t1, rs2, delta) == (s1, t1, Seq::<Seq<char>>::empty()));
    assert(run_routines(s1, t, rs1, delta) == (s1, t1, o + Seq::<Seq<char>>::empty()));
    assert(run_routines(s, t, rs, delta) == (
        s1,
        t1,
        Seq::<Seq<char>>::empty() + (o + Seq::<Seq<char>>::empty()),
    ));
    let r = run_routines(s, t, rs, delta);
    assert(r.0 == s1);
    assert(r.1 == t1);
    assert(r.2 =~= o);
    assert(s1.names[f] == (s.names[f].0, replacement_name()));
    if t1.just_finished {
        assert(o == greetings_of(s1));
        assert(s1.persons.contains(s1.names[f].0));
        lemma_person_names_has(s1.persons, s1.names, f);
        let pn = s1.person_names();
        let k = choose|k: int| 0 <= k < pn.len() && pn[k] == s1.names[f];
        assert(o[k] == greeting_of(replacement_name()));
    }
}

} // verus!
