use hello_ecs::driver::App;
use hello_ecs::plugin::{greeting_line, HelloPlugin};
use hello_ecs::schedule::{Phase, Routine};
use hello_ecs::timer::{Timer, TimerMode};

fn built_app() -> App {
    let mut app = App::new();
    HelloPlugin.build(&mut app);
    app
}

#[test]
fn greeting_line_has_the_exact_format() {
    assert_eq!(greeting_line("Mateusz"), "Hello Mateusz!");
    assert_eq!(greeting_line(""), "Hello !");
}

#[test]
fn plugin_registers_timer_and_ordered_systems() {
    let app = built_app();
    assert_eq!(app.timer.interval, 2);
    assert_eq!(app.timer.elapsed, 0);
    assert!(matches!(app.timer.mode, TimerMode::Repeating));
    assert!(matches!(app.schedule.startup[..], [Routine::AddPeople]));
    assert!(matches!(
        app.schedule.update[..],
        [Routine::UpdatePeople, Routine::GreetPeople]
    ));
}

#[test]
fn startup_spawns_the_three_people_and_emits_nothing() {
    let mut app = built_app();
    let out = app.run_startup();
    assert!(out.is_empty());
    let names = app.store.query_person_names();
    let got: Vec<&str> = names.iter().map(|p| p.1.as_str()).collect();
    assert_eq!(got, vec!["Ziomek", "Mateusz", "Adam"]);
}

#[test]
fn two_unit_scenario_greets_on_the_second_tick() {
    // Interval 2, repeating; deltas [1, 1]. Tick one: mutation only, no
    // output. Tick two: the boundary is crossed and every person is
    // greeted, the renamed one with its new name.
    let mut app = built_app();
    app.run_startup();
    let out1 = app.tick(1);
    assert!(out1.is_empty());
    let names = app.store.query_person_names();
    assert_eq!(names[0].1, "Ziomek Ross");
    let out2 = app.tick(1);
    assert_eq!(
        out2,
        vec!["Hello Ziomek Ross!", "Hello Mateusz!", "Hello Adam!"]
    );
}

#[test]
fn mutation_has_no_time_gate() {
    let mut app = built_app();
    app.run_startup();
    let out = app.tick(0);
    assert!(out.is_empty());
    let names = app.store.query_person_names();
    let got: Vec<&str> = names.iter().map(|p| p.1.as_str()).collect();
    assert_eq!(got, vec!["Ziomek Ross", "Mateusz", "Adam"]);
}

#[test]
fn greeting_reflects_the_same_tick_mutation() {
    // A single delta that crosses the boundary at once: the greeting uses
    // the name as mutated earlier in the same tick.
    let mut app = built_app();
    app.run_startup();
    let out = app.tick(2);
    assert_eq!(
        out,
        vec!["Hello Ziomek Ross!", "Hello Mateusz!", "Hello Adam!"]
    );
}

#[test]
fn later_ticks_keep_greeting_every_interval() {
    let mut app = built_app();
    app.run_startup();
    assert!(app.tick(1).is_empty());
    assert_eq!(app.tick(1).len(), 3);
    assert!(app.tick(1).is_empty());
    assert_eq!(app.tick(1).len(), 3);
}

#[test]
fn overshoot_carries_into_the_next_interval() {
    // Delta 5 against interval 2 leaves remainder 1, so the next crossing
    // needs only one more unit.
    let mut app = built_app();
    app.run_startup();
    let out = app.tick(5);
    assert_eq!(out.len(), 3);
    assert_eq!(app.timer.elapsed, 1);
    assert_eq!(app.tick(1).len(), 3);
}

#[test]
fn declared_order_is_run_order() {
    // Registering the greeting before the mutation makes the greeting read
    // the pre-mutation name; the mutation still lands within the tick.
    let mut app = App::new();
    app.insert_timer(Timer::new(1, TimerMode::Repeating));
    app.add_system(Phase::Startup, Routine::AddPeople);
    app.add_system(Phase::Update, Routine::GreetPeople);
    app.add_system(Phase::Update, Routine::UpdatePeople);
    app.run_startup();
    let out = app.tick(1);
    assert_eq!(out[0], "Hello Ziomek!");
    assert_eq!(app.store.query_person_names()[0].1, "Ziomek Ross");
}

#[test]
fn tick_without_people_greets_nobody() {
    // Startup routine dropped before it runs: the store stays empty, and a
    // crossing tick greets nobody.
    let mut bare = App::new();
    HelloPlugin.build(&mut bare);
    bare.schedule.startup.clear();
    bare.run_startup();
    let out = bare.tick(2);
    assert!(out.is_empty());
}
