use hello_ecs::store::{ComponentStore, Name, Person};

fn named_store(names: &[&str]) -> ComponentStore {
    let mut s = ComponentStore::new();
    for n in names {
        s.spawn(Some(Person), Some(Name(n.to_string())));
    }
    s
}

#[test]
fn spawn_hands_out_sequential_ids() {
    let mut s = ComponentStore::new();
    let a = s.spawn(Some(Person), Some(Name("Ala".to_string())));
    let b = s.spawn(None, Some(Name("Ola".to_string())));
    let c = s.spawn(Some(Person), None);
    assert_eq!(a, 0);
    assert_eq!(b, 1);
    assert_eq!(c, 2);
}

#[test]
fn query_yields_person_marked_names_in_insertion_order() {
    let mut s = ComponentStore::new();
    s.spawn(Some(Person), Some(Name("Ala".to_string())));
    s.spawn(None, Some(Name("Ola".to_string())));
    s.spawn(Some(Person), None);
    s.spawn(Some(Person), Some(Name("Ela".to_string())));
    let out = s.query_person_names();
    let got: Vec<(u64, &str)> = out.iter().map(|p| (p.0, p.1.as_str())).collect();
    assert_eq!(got, vec![(0, "Ala"), (3, "Ela")]);
}

#[test]
fn query_over_zero_matches_is_empty() {
    let mut s = ComponentStore::new();
    s.spawn(None, Some(Name("Ala".to_string())));
    s.spawn(Some(Person), None);
    assert!(s.query_person_names().is_empty());
    assert!(ComponentStore::new().query_person_names().is_empty());
}

#[test]
fn requerying_without_mutation_is_stable() {
    // Same entity set, same order, every time.
    let s = named_store(&["Ziomek", "Mateusz", "Adam"]);
    let first = s.query_person_names();
    let second = s.query_person_names();
    assert_eq!(first, second);
    let third = s.query_person_names();
    assert_eq!(first, third);
}

#[test]
fn rename_changes_the_matching_name_in_place() {
    let mut s = named_store(&["Ziomek", "Mateusz"]);
    s.rename_first_match("Ziomek", "Ziomek Ross");
    let out = s.query_person_names();
    let got: Vec<&str> = out.iter().map(|p| p.1.as_str()).collect();
    assert_eq!(got, vec!["Ziomek Ross", "Mateusz"]);
}

#[test]
fn rename_touches_only_the_first_match() {
    // A second entity with the very same name stays unrenamed.
    let mut s = named_store(&["Adam", "Ziomek", "Ziomek"]);
    s.rename_first_match("Ziomek", "Ziomek Ross");
    let out = s.query_person_names();
    let got: Vec<&str> = out.iter().map(|p| p.1.as_str()).collect();
    assert_eq!(got, vec!["Adam", "Ziomek Ross", "Ziomek"]);
}

#[test]
fn rename_skips_unmarked_entities() {
    let mut s = ComponentStore::new();
    s.spawn(None, Some(Name("Ziomek".to_string())));
    s.spawn(Some(Person), Some(Name("Ziomek".to_string())));
    s.rename_first_match("Ziomek", "Ziomek Ross");
    let out = s.query_person_names();
    assert_eq!(out.len(), 1);
    assert_eq!(out[0].0, 1);
    assert_eq!(out[0].1, "Ziomek Ross");
}

#[test]
fn rename_without_a_match_changes_nothing() {
    let mut s = named_store(&["Mateusz", "Adam"]);
    s.rename_first_match("Ziomek", "Ziomek Ross");
    let out = s.query_person_names();
    let got: Vec<&str> = out.iter().map(|p| p.1.as_str()).collect();
    assert_eq!(got, vec!["Mateusz", "Adam"]);
}

#[test]
fn rename_requires_exact_equality() {
    let mut s = named_store(&["Ziomek Ross", "ziomek"]);
    s.rename_first_match("Ziomek", "Nowak");
    let out = s.query_person_names();
    let got: Vec<&str> = out.iter().map(|p| p.1.as_str()).collect();
    assert_eq!(got, vec!["Ziomek Ross", "ziomek"]);
}
