use crate::driver::App;
use crate::schedule::{Phase, Routine};
use crate::store::{pairs_view, ComponentStore, Name, Person, StoreView};
use crate::timer::{spec_tick, Timer, TimerMode};
use vstd::prelude::*;
use vstd::string::StringExecFns;

verus! {

/// Interval, in whole time units, between greetings.
pub const GREET_INTERVAL: u64 = 2;

/// The name the mutation routine looks for.
pub open spec fn target_name() -> Seq<char> {
    "Ziomek"@
}

/// The name it writes in its place.
pub open spec fn replacement_name() -> Seq<char> {
    "Ziomek Ross"@
}

/// The greeting line for one name.
pub open spec fn greeting_of(name: Seq<char>) -> Seq<char> {
    "Hello "@ + name + "!"@
}

/// All greeting lines for the person-marked names of the store, one per
/// entity, in store order.
pub open spec fn greetings_of(v: StoreView) -> Seq<Seq<char>> {
    v.person_names().map_values(|p: (u64, Seq<char>)| greeting_of(p.1))
}

/// The abstract value of a sequence of output lines.
pub open spec fn lines_view(out: Seq<String>) -> Seq<Seq<char>> {
    out.map_values(|s: String| s@)
}

/// The store after the startup routine: the three initial inhabitants,
/// spawned in order, each person-marked and named.
pub open spec fn add_people_view(v: StoreView) -> StoreView {
    crate::store::spawn_view(
        crate::store::spawn_view(
            crate::store::spawn_view(v, true, Option::Some("Ziomek"@)),
            true,
            Option::Some("Mateusz"@),
        ),
        true,
        Option::Some("Adam"@),
    )
}

/// Startup routine: spawns the three person-marked, named entities.
pub fn add_people(store: &mut ComponentStore)
    requires
        old(store)@.wf(),
        old(store)@.next + 3 <= u64::MAX,
    ensures
        final(store)@ == add_people_view(old(store)@),
        final(store)@.wf(),
{
    store.spawn(Option::Some(Person), Option::Some(Name("Ziomek".to_owned())));
    store.spawn(Option::Some(Person), Option::Some(Name("Mateusz".to_owned())));
    store.spawn(Option::Some(Person), Option::Some(Name("Adam".to_owned())));
}

/// Update routine: renames the first person-marked entity whose name
/// exactly equals the target to the replacement, and stops scanning further
/// matches that tick. Runs every tick, with no time gate.
pub fn update_people(store: &mut ComponentStore)
    ensures
        final(store)@ == old(store)@.rename_first(target_name(), replacement_name()),
{
    store.rename_first_match("Ziomek", "Ziomek Ross");
}

/// Builds the greeting line `Hello <name>!`.
pub fn greeting_line(name: &str) -> (out: String)
    ensures
        out@ == greeting_of(name@),
{
    let mut s = String::from_str("Hello ");
    s.append(name);
    s.append("!");
    s
}

/// Update routine, chained after the mutation: advances the timer by the
/// tick's delta, and if and only if that crossed the interval boundary,
/// returns one greeting line per person-marked entity, using whatever name
/// value is current at that moment.
pub fn greet_people(delta: u64, timer: &mut Timer, store: &ComponentStore) -> (out: Vec<String>)
    requires
        old(timer).wf(),
    ensures
        *final(timer) == spec_tick(*old(timer), delta),
        final(timer).wf(),
        lines_view(out@) == (if spec_tick(*old(timer), delta).just_finished {
            greetings_of(store@)
        } else {
            Seq::<Seq<char>>::empty()
        }),
{
    timer.tick(delta);
    let mut out: Vec<String> = Vec::new();
    if timer.just_finished() {
        let ghost pn = store@.person_names();
        let pairs = store.query_person_names();
        let n: usize = pairs.len();
        let mut i: usize = 0;
        proof {
            assert(lines_view(out@) =~= greetings_of(store@).take(0));
        }
        while i < n
            invariant
                i <= n,
                n == pairs@.len(),
                pn == store@.person_names(),
                pairs_view(pairs@) == pn,
                lines_view(out@) == greetings_of(store@).take(i as int),
            decreases n - i,
        {
            let ghost prev = lines_view(out@);
            proof {
                assert(pairs_view(pairs@)[i as int] == pn[i as int]);
            }
            let line = greeting_line(pairs[i].1.as_str());
            out.push(line);
            i = i + 1;
            proof {
                assert(greetings_of(store@)[i - 1] == greeting_of(pn[i - 1].1));
                assert(lines_view(out@) =~= prev.push(greeting_of(pn[i - 1].1)));
                assert(greetings_of(store@).take(i as int) =~= greetings_of(store@).take(i - 1)
                .push(greetings_of(store@)[i - 1]));
            }
        }
        proof {
            assert(greetings_of(store@).take(n as int) =~= greetings_of(store@));
        }
    } else {
        proof {
            assert(lines_view(out@) =~= Seq::<Seq<char>>::empty());
        }
    }
    out
}

/// Wires the greeting demo into an application: installs the repeating
/// greeting timer as the shared resource, registers the startup spawn
/// routine, and registers the mutation and greeting routines as a chain in
/// the update phase, in that order.
pub struct HelloPlugin;

impl HelloPlugin {
    /// Registers this plugin's resources and routines on the app.
    pub fn build(&self, app: &mut App)
        ensures
            final(app).timer == (Timer {
                interval: GREET_INTERVAL,
                elapsed: 0,
                mode: TimerMode::Repeating,
                finished: false,
                just_finished: false,
            }),
            final(app).schedule.startup@ == old(app).schedule.startup@.push(Routine::AddPeople),
            final(app).schedule.update@ == old(app).schedule.update@.push(
                Routine::UpdatePeople,
            ).push(Routine::GreetPeople),
            final(app).store == old(app).store,
            final(app).started == old(app).started,
    {
        app.insert_timer(Timer::new(GREET_INTERVAL, TimerMode::Repeating));
        app.add_system(Phase::Startup, Routine::AddPeople);
        app.add_chain(Phase::Update, Routine::UpdatePeople, Routine::GreetPeople);
    }
}

} // verus!
