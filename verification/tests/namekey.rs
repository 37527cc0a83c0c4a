use std::collections::hash_map::DefaultHasher;
use std::collections::HashMap;
use std::hash::{Hash, Hasher};
use powers_dict::structs::{Keyed, NameKey};

#[test]
fn names_differing_in_case_are_one_name() {
    let a = NameKey::new("Foo.Bar");
    let b = NameKey::new("foo.bar");
    assert!(a == b);
    assert_eq!(a.folded(), b.folded());
    assert_eq!(a.folded(), "foo.bar");
    assert_eq!(a.get(), "Foo.Bar");
    assert_eq!(b.get_string(), &String::from("foo.bar"));
    let mut table: Keyed<u32> = Keyed::new();
    table.insert(a, 7);
    assert_eq!(table.get(&b), Some(&7));
    assert_eq!(table.len(), 1);
    assert!(table.contains_key(&NameKey::new("FOO.BAR")));
    assert!(!table.contains_key(&NameKey::new("foo.baz")));
}

#[test]
fn folding_leaves_other_characters_alone() {
    let name = NameKey::new("ÄB-Z_9é");
    assert_eq!(name.folded(), "Äb-z_9é");
    assert!(name == NameKey::new("Äb-Z_9é"));
    assert!(name != NameKey::new("äb-z_9é"));
}

#[test]
fn last_write_wins_and_keeps_the_position() {
    let mut table: Keyed<u32> = Keyed::new();
    table.insert(NameKey::new("One"), 1);
    table.insert(NameKey::new("Two"), 2);
    table.insert(NameKey::new("ONE"), 3);
    assert_eq!(table.len(), 2);
    assert_eq!(table.find(&NameKey::new("one")), Some(0));
    assert_eq!(table.find(&NameKey::new("two")), Some(1));
    assert_eq!(table.find(&NameKey::new("three")), None);
    assert_eq!(*table.at(0), 3);
    assert_eq!(table.name_at(0).get(), "One");
    *table.at_mut(1) = 20;
    assert_eq!(table.get(&NameKey::new("TWO")), Some(&20));
}

#[test]
fn retain_keeps_the_order_of_what_stays() {
    let mut table: Keyed<u32> = Keyed::new();
    table.insert(NameKey::new("a"), 1);
    table.insert(NameKey::new("b"), 2);
    table.insert(NameKey::new("c"), 3);
    table.insert(NameKey::new("d"), 4);
    let kept = table.retain(&vec![true, false, true, false]);
    assert_eq!(kept.len(), 2);
    assert_eq!(kept.find(&NameKey::new("A")), Some(0));
    assert_eq!(kept.find(&NameKey::new("C")), Some(1));
    assert_eq!(kept.find(&NameKey::new("b")), None);
    assert_eq!(*kept.at(1), 3);
}

#[test]
fn split_gives_the_segments() {
    assert_eq!(NameKey::new("Melee.Punching.Jab").split(), vec!["Melee", "Punching", "Jab"]);
    assert_eq!(NameKey::new("Melee").split(), vec!["Melee"]);
    assert_eq!(NameKey::new("").split(), vec![""]);
    assert_eq!(NameKey::new("a..b").split(), vec!["a", "", "b"]);
    assert_eq!(NameKey::new(".a.").split(), vec!["", "a", ""]);
    assert_eq!(NameKey::new("Pets.Été.Ça").split(), vec!["Pets", "Été", "Ça"]);
}

#[test]
fn wildcard_is_the_star_alone() {
    assert!(NameKey::new("*").is_wildcard());
    assert!(!NameKey::new("**").is_wildcard());
    assert!(!NameKey::new("").is_wildcard());
    assert!(!NameKey::new("a.*").is_wildcard());
}

#[test]
fn partial_match_ignores_case() {
    let name = NameKey::new("Pets.Mastermind_Summon");
    assert!(name.partial_match("mastermind"));
    assert!(name.partial_match("MASTERMIND"));
    assert!(name.partial_match("pets."));
    assert!(name.partial_match(""));
    assert!(!name.partial_match("villain"));
    assert!(!name.partial_match("Pets.Mastermind_Summon.Wolf"));
}

#[test]
fn clone_keeps_the_name() {
    let name = NameKey::new("Inherent.Fitness");
    let copy = name.clone();
    assert_eq!(copy.get(), "Inherent.Fitness");
    assert!(copy == name);
}

#[test]
fn names_that_differ_in_case_are_hashed_alike() {
    let mut first = DefaultHasher::new();
    NameKey::new("Foo.Bar").hash(&mut first);
    let mut second = DefaultHasher::new();
    NameKey::new("foo.bar").hash(&mut second);
    assert_eq!(first.finish(), second.finish());
    let mut third = DefaultHasher::new();
    NameKey::new("foo.baz").hash(&mut third);
    assert_ne!(first.finish(), third.finish());
    let mut table: HashMap<NameKey, u32> = HashMap::new();
    table.insert(NameKey::new("Foo.Bar"), 7);
    assert_eq!(table.get(&NameKey::new("FOO.bar")), Some(&7));
    assert_eq!(table.get(&NameKey::new("foo.baz")), None);
}

#[test]
fn a_name_is_compared_with_a_text_and_made_from_a_string() {
    let name = NameKey::from(String::from("Melee.Punching"));
    assert_eq!(name.get(), "Melee.Punching");
    assert!(name == *"melee.PUNCHING");
    assert!(name != *"melee.punch");
    assert!(name != *"");
    assert!(NameKey::new("") == *"");
}
