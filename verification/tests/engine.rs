use powers_dict::load::redirects::resolve_power_redirects;
use powers_dict::load::{
    filter_power_sets, find_power_category, flag_top_level, include_top_level, link_power_sets,
    link_powers, mark_power_for_inclusion, match_archetypes_to_power_categories,
    match_enh_categories_to_powers, resolve_entity_defs_and_power_grants, resolve_references,
    PowersConfig,
};
use powers_dict::structs::{
    Archetype, ArchetypeRef, AttribModParam, AttribModParam_EntCreate, AttribModParam_Power,
    AttribModTemplate, BasePower, BasePowerSet, BoostSet, EffectGroup, Keyed, NameKey,
    PowerCategory, PowerNameRef, PowerRedirect, PrimarySecondary, VillainDef,
};

fn config(top: &[&str], global: &[&str], filter: &[&str]) -> PowersConfig {
    let mut config = PowersConfig::new();
    config.power_categories = top.iter().map(|n| NameKey::new(n)).collect();
    config.global_categories = global.iter().map(|n| NameKey::new(n)).collect();
    config.filter_powersets = filter.iter().map(|n| NameKey::new(n)).collect();
    config
}

fn category(name: &str, sets: &[&str]) -> PowerCategory {
    let mut category = PowerCategory::new();
    category.pch_name = Some(NameKey::new(name));
    category.ppch_power_set_names = sets.iter().map(|n| NameKey::new(n)).collect();
    category
}

fn set(name: &str, powers: &[&str]) -> BasePowerSet {
    let mut set = BasePowerSet::new();
    set.pch_full_name = Some(NameKey::new(name));
    set.pp_power_names = powers.iter().map(|n| NameKey::new(n)).collect();
    set
}

fn power(name: &str) -> BasePower {
    let mut power = BasePower::new();
    power.pch_full_name = Some(NameKey::new(name));
    power
}

fn redirecting(name: &str, targets: &[&str]) -> BasePower {
    let mut power = power(name);
    for target in targets {
        let mut redirect = PowerRedirect::new();
        redirect.pch_name = Some(NameKey::new(target));
        power.pp_redirect.push(redirect);
    }
    power
}

fn archetype(name: &str, primary: Option<&str>, secondary: Option<&str>) -> Archetype {
    let mut archetype = Archetype::new();
    archetype.pch_name = Some(String::from(name));
    archetype.pch_primary_category = primary.map(|n| NameKey::new(n));
    archetype.pch_secondary_category = secondary.map(|n| NameKey::new(n));
    archetype
}

fn keyed<T>(entries: Vec<(&str, T)>) -> Keyed<T> {
    let mut table = Keyed::new();
    for (name, entity) in entries {
        table.insert(NameKey::new(name), entity);
    }
    table
}

fn player(index: usize) -> ArchetypeRef {
    ArchetypeRef { villain: false, index }
}

struct World {
    archetypes: Keyed<Archetype>,
    villain_archetypes: Keyed<Archetype>,
    villains: Keyed<VillainDef>,
    categories: Keyed<PowerCategory>,
    sets: Keyed<BasePowerSet>,
    powers: Keyed<BasePower>,
}

impl World {
    fn included(&self, name: &str) -> bool {
        self.powers.get(&NameKey::new(name)).unwrap().include_in_output
    }

    fn set_included(&self, name: &str) -> bool {
        self.sets.get(&NameKey::new(name)).unwrap().include_in_output
    }

    fn category_included(&self, name: &str) -> bool {
        self.categories.get(&NameKey::new(name)).unwrap().include_in_output
    }

    /// All steps from the decoded collections to the closure, but the last.
    fn link(&mut self, config: &PowersConfig) -> bool {
        let proceed = flag_top_level(config, &mut self.categories);
        match_archetypes_to_power_categories(&self.archetypes, config, &mut self.categories);
        let sets = std::mem::replace(&mut self.sets, Keyed::new());
        self.sets = filter_power_sets(sets, &config.filter_powersets);
        link_powers(&mut self.sets, &self.powers);
        link_power_sets(&mut self.categories, &self.sets);
        include_top_level(&mut self.categories, &mut self.sets, &mut self.powers);
        proceed
    }

    fn resolve(&mut self) -> usize {
        resolve_references(
            &self.villains,
            &self.villain_archetypes,
            &mut self.categories,
            &mut self.sets,
            &mut self.powers,
        )
    }
}

fn melee() -> World {
    World {
        archetypes: keyed(vec![
            ("@class_tanker", archetype("Class_Tanker", Some("Defense"), Some("Melee"))),
            ("@class_scrapper", archetype("Class_Scrapper", Some("melee"), Some("Defense"))),
        ]),
        villain_archetypes: Keyed::new(),
        villains: Keyed::new(),
        categories: keyed(vec![
            ("Melee", category("Melee", &["Melee.Punching"])),
            ("Pets", category("Pets", &["Pets.Summon"])),
        ]),
        sets: keyed(vec![
            ("Melee.Punching", set("Melee.Punching", &["Melee.Punching.Jab"])),
            ("Pets.Summon", set("Pets.Summon", &["Pets.Summon.Attack"])),
        ]),
        powers: keyed(vec![
            ("Melee.Punching.Jab", power("Melee.Punching.Jab")),
            ("Pets.Summon.Attack", power("Pets.Summon.Attack")),
        ]),
    }
}

#[test]
fn basic_three_level_link() {
    let mut world = melee();
    assert!(world.link(&config(&["Melee"], &[], &[])));
    world.resolve();
    assert!(world.included("Melee.Punching.Jab"));
    assert!(world.set_included("Melee.Punching"));
    assert!(world.category_included("Melee"));
    assert!(!world.included("Pets.Summon.Attack"));
    assert!(!world.set_included("Pets.Summon"));
    assert!(!world.category_included("Pets"));
    let jab = world.powers.get(&NameKey::new("Melee.Punching.Jab")).unwrap();
    // the scrapper has the category for its primary, the tanker for its
    // secondary; the tanker comes first in the collection
    assert_eq!(jab.archetypes, vec![player(0), player(1)]);
    let melee = world.categories.get(&NameKey::new("Melee")).unwrap();
    assert!(melee.top_level);
    assert_eq!(melee.archetypes, vec![player(0), player(1)]);
    assert_eq!(melee.pri_sec, PrimarySecondary::Primary);
    assert_eq!(melee.pp_power_sets, vec![0]);
    let pets = world.categories.get(&NameKey::new("Pets")).unwrap();
    assert!(!pets.top_level);
    assert_eq!(pets.pri_sec, PrimarySecondary::Neither);
    assert_eq!(world.sets.at(0).pp_powers, vec![0]);
}

fn entity_world() -> World {
    let mut world = melee();
    // the power Jab creates the entity V
    let mut block = AttribModParam_EntCreate::new();
    block.pch_entity_def = Some(NameKey::new("v"));
    let mut template = AttribModTemplate::new();
    template.p_params = Some(AttribModParam::EntCreate(block));
    let mut group = EffectGroup::new();
    group.pp_templates.push(template);
    world.powers.at_mut(0).pp_effects.push(group);
    let mut reference = PowerNameRef::new();
    reference.power_category = Some(NameKey::new("Pets"));
    reference.power_set = Some(NameKey::new("Summon"));
    reference.power = Some(NameKey::new("Attack"));
    let mut villain = VillainDef::new();
    villain.name = Some(NameKey::new("V"));
    villain.character_class_name = Some(NameKey::new("Class_Minion_Pets"));
    villain.powers.push(reference);
    world.villains = keyed(vec![("V", villain)]);
    world.villain_archetypes = keyed(vec![
        ("@Class_Boss", archetype("Class_Boss", None, None)),
        ("@Class_Minion_Pets", archetype("Class_Minion_Pets", None, None)),
    ]);
    world
}

fn first_block(world: &World, power: usize) -> &AttribModParam_EntCreate {
    match &world.powers.at(power).pp_effects[0].pp_templates[0].p_params {
        Some(AttribModParam::EntCreate(block)) => block,
        _ => panic!("the power was to hold an entity block"),
    }
}

#[test]
fn entity_creation_closure() {
    let mut world = entity_world();
    world.link(&config(&["Melee"], &[], &[]));
    assert!(!world.included("Pets.Summon.Attack"));
    assert!(!first_block(&world, 0).resolved);
    let passes = world.resolve();
    assert!(world.included("Pets.Summon.Attack"));
    assert!(world.set_included("Pets.Summon"));
    assert!(world.category_included("Pets"));
    let block = first_block(&world, 0);
    assert!(block.resolved);
    assert_eq!(block.villain_def, Some(0));
    assert_eq!(block.power_refs.len(), 1);
    assert_eq!(block.power_refs[0].get(), "Pets.Summon.Attack");
    // the created power belongs to the archetype of the villain
    let attack = world.powers.get(&NameKey::new("Pets.Summon.Attack")).unwrap();
    assert_eq!(attack.archetypes, vec![ArchetypeRef { villain: true, index: 1 }]);
    assert!(attack.redirects_resolved);
    // one pass resolves the block and follows the redirects, one finds nothing
    assert_eq!(passes, 2);
}

#[test]
fn a_wildcard_stands_for_all_powers_of_the_set() {
    let mut world = entity_world();
    world.powers.insert(NameKey::new("Pets.Summon.Bite"), power("Pets.Summon.Bite"));
    world.sets.at_mut(1).pp_power_names.push(NameKey::new("Pets.Summon.Bite"));
    world.sets.at_mut(1).pp_power_names.push(NameKey::new("Pets.Summon.Gone"));
    world.villains.at_mut(0).powers[0].power = Some(NameKey::new("*"));
    world.link(&config(&["Melee"], &[], &[]));
    world.resolve();
    let block = first_block(&world, 0);
    let refs: Vec<&str> = block.power_refs.iter().map(|n| n.get()).collect();
    assert_eq!(refs, vec!["Pets.Summon.Attack", "Pets.Summon.Bite", "Pets.Summon.Gone"]);
    assert!(world.included("Pets.Summon.Attack"));
    assert!(world.included("Pets.Summon.Bite"));
}

#[test]
fn a_block_with_redirects_marks_them_with_the_archetypes_of_its_power() {
    let mut world = entity_world();
    let mut block = AttribModParam_EntCreate::new();
    block.pch_entity_def = Some(NameKey::new("v"));
    block.redirects.push(NameKey::new("PETS.SUMMON.ATTACK"));
    block.redirects.push(NameKey::new("Pets.Summon.Missing"));
    block.redirects.push(NameKey::new("NotAFullName"));
    world.powers.at_mut(0).pp_effects[0].pp_templates[0].p_params = Some(AttribModParam::EntCreate(block));
    world.link(&config(&["Melee"], &[], &[]));
    world.resolve();
    let block = first_block(&world, 0);
    assert!(block.resolved);
    assert_eq!(block.villain_def, None);
    assert_eq!(block.power_refs.len(), 0);
    let attack = world.powers.get(&NameKey::new("Pets.Summon.Attack")).unwrap();
    assert!(attack.include_in_output);
    assert_eq!(attack.archetypes, vec![player(0), player(1)]);
}

#[test]
fn blocks_in_nested_groups_and_grants_are_resolved() {
    let mut world = melee();
    let mut grant = AttribModParam_Power::new();
    grant.ppch_power_names.push(NameKey::new("Pets.Summon.Attack"));
    grant.ppch_category_names.push(NameKey::new("Ignored"));
    let mut template = AttribModTemplate::new();
    template.p_params = Some(AttribModParam::Power(grant));
    let mut inner = EffectGroup::new();
    inner.pp_templates.push(template);
    let mut outer = EffectGroup::new();
    outer.pp_effects.push(inner);
    world.powers.at_mut(0).pp_effects.push(outer);
    world.link(&config(&["Melee"], &[], &[]));
    let found = resolve_entity_defs_and_power_grants(
        &world.villains,
        &world.villain_archetypes,
        &mut world.categories,
        &mut world.sets,
        &mut world.powers,
    );
    assert_eq!(found, 1);
    assert!(world.included("Pets.Summon.Attack"));
    match &world.powers.at(0).pp_effects[0].pp_effects[0].pp_templates[0].p_params {
        Some(AttribModParam::Power(block)) => assert!(block.resolved),
        _ => panic!("the power was to hold a grant"),
    }
    let again = resolve_entity_defs_and_power_grants(
        &world.villains,
        &world.villain_archetypes,
        &mut world.categories,
        &mut world.sets,
        &mut world.powers,
    );
    assert_eq!(again, 0);
}

fn chain() -> World {
    World {
        archetypes: Keyed::new(),
        villain_archetypes: Keyed::new(),
        villains: Keyed::new(),
        categories: keyed(vec![
            ("Top", category("Top", &["Top.Set"])),
            ("Rest", category("Rest", &["Rest.Set"])),
        ]),
        sets: keyed(vec![
            ("Top.Set", set("Top.Set", &["Top.Set.A"])),
            ("Rest.Set", set("Rest.Set", &["Rest.Set.B", "Rest.Set.C"])),
        ]),
        // the redirected powers stand before the redirecting ones
        powers: keyed(vec![
            ("Rest.Set.C", power("Rest.Set.C")),
            ("Rest.Set.B", redirecting("Rest.Set.B", &["rest.set.c"])),
            ("Top.Set.A", redirecting("Top.Set.A", &["Rest.Set.B", "Rest.Set.Nothing"])),
        ]),
    }
}

#[test]
fn redirect_chaining() {
    let mut world = chain();
    world.link(&config(&["Top"], &[], &[]));
    assert!(world.included("Top.Set.A"));
    assert!(!world.included("Rest.Set.B"));
    // a single pass marks B, and C only in the pass after
    let first = resolve_power_redirects(&mut world.powers, &mut world.categories, &mut world.sets);
    assert_eq!(first, 1);
    assert!(world.included("Rest.Set.B"));
    assert!(!world.included("Rest.Set.C"));
    let second = resolve_power_redirects(&mut world.powers, &mut world.categories, &mut world.sets);
    assert_eq!(second, 1);
    assert!(world.included("Rest.Set.C"));
    let third = resolve_power_redirects(&mut world.powers, &mut world.categories, &mut world.sets);
    assert_eq!(third, 1);
    let fourth = resolve_power_redirects(&mut world.powers, &mut world.categories, &mut world.sets);
    assert_eq!(fourth, 0);
}

#[test]
fn redirect_chaining_takes_more_than_one_pass() {
    // the same chain in either order of the powers
    for reversed in [false, true] {
        let mut world = chain();
        if reversed {
            world.powers = keyed(vec![
                ("Top.Set.A", redirecting("Top.Set.A", &["Rest.Set.B"])),
                ("Rest.Set.B", redirecting("Rest.Set.B", &["Rest.Set.C"])),
                ("Rest.Set.C", power("Rest.Set.C")),
            ]);
        }
        world.link(&config(&["Top"], &[], &[]));
        let passes = world.resolve();
        assert_eq!(passes, 4);
        assert!(world.included("Rest.Set.C"));
        assert!(world.set_included("Rest.Set"));
        assert!(world.category_included("Rest"));
    }
}

fn flags(world: &World) -> Vec<(bool, bool, Vec<ArchetypeRef>)> {
    let mut out = Vec::new();
    for i in 0..world.powers.len() {
        let p = world.powers.at(i);
        out.push((p.include_in_output, p.redirects_resolved, p.archetypes.clone()));
    }
    for i in 0..world.sets.len() {
        out.push((world.sets.at(i).include_in_output, false, Vec::new()));
    }
    for i in 0..world.categories.len() {
        out.push((world.categories.at(i).include_in_output, world.categories.at(i).top_level, Vec::new()));
    }
    out
}

#[test]
fn a_second_run_marks_nothing() {
    for mut world in [chain(), entity_world(), melee()] {
        world.link(&config(&[], &[], &[]));
        world.resolve();
        let before = flags(&world);
        assert_eq!(world.resolve(), 1);
        assert_eq!(flags(&world), before);
    }
}

#[test]
fn included_powers_have_their_owners_included() {
    for mut world in [chain(), entity_world(), melee()] {
        let top = world.categories.name_at(0).get().to_string();
        world.link(&config(&[top.as_str()], &[], &[]));
        world.resolve();
        for i in 0..world.powers.len() {
            if world.powers.at(i).include_in_output {
                let parts = world.powers.name_at(i).split();
                assert!(world.category_included(&parts[0]));
                assert!(world.set_included(&format!("{}.{}", parts[0], parts[1])));
            }
        }
    }
}

#[test]
fn marking_merges_archetypes_once() {
    let mut world = melee();
    let jab = NameKey::new("MELEE.PUNCHING.JAB");
    mark_power_for_inclusion(&jab, &vec![player(3), player(1), player(3)], &mut world.categories, &mut world.sets, &mut world.powers);
    mark_power_for_inclusion(&jab, &vec![player(1), player(2)], &mut world.categories, &mut world.sets, &mut world.powers);
    assert_eq!(world.powers.at(0).archetypes, vec![player(3), player(1), player(2)]);
    assert!(world.included("Melee.Punching.Jab"));
    assert!(world.set_included("Melee.Punching"));
    assert!(world.category_included("Melee"));
    assert!(!world.category_included("Pets"));
    // a power that is not there: its set and category are included all the same
    mark_power_for_inclusion(&NameKey::new("Pets.Summon.Nothing"), &Vec::new(), &mut world.categories, &mut world.sets, &mut world.powers);
    assert!(world.set_included("Pets.Summon"));
    assert!(world.category_included("Pets"));
    assert!(!world.included("Pets.Summon.Attack"));
}

#[test]
fn archetypes_are_matched_to_their_categories() {
    let mut world = melee();
    let mut villain = archetype("Class_Villain", None, None);
    villain.pch_epic_pool_category = Some(NameKey::new("Pets"));
    villain.pch_power_pool_category = Some(NameKey::new("PETS"));
    villain.pch_secondary_category = Some(NameKey::new("Nowhere"));
    world.archetypes.insert(NameKey::new("@class_villain"), villain);
    let config = config(&[], &["Pets", "pets", "Missing"], &[]);
    match_archetypes_to_power_categories(&world.archetypes, &config, &mut world.categories);
    let melee = world.categories.at(0);
    assert_eq!(melee.archetypes, vec![player(0), player(1)]);
    assert_eq!(melee.pri_sec, PrimarySecondary::Primary);
    let pets = world.categories.at(1);
    assert_eq!(
        pets.archetypes,
        vec![player(0), player(0), player(1), player(1), player(2), player(2), player(2), player(2)]
    );
    assert_eq!(pets.pri_sec, PrimarySecondary::Neither);
    assert_eq!(find_power_category(&world.categories, Some(&NameKey::new("PETS"))), Some(1));
    assert_eq!(find_power_category(&world.categories, Some(&NameKey::new("Pet"))), None);
    assert_eq!(find_power_category(&world.categories, None), None);
}

#[test]
fn top_level_flags() {
    let mut world = melee();
    assert!(flag_top_level(&config(&[], &[], &[]), &mut world.categories));
    assert!(world.categories.at(0).top_level && world.categories.at(1).top_level);
    let mut world = melee();
    assert!(flag_top_level(&config(&["PETS", "Other"], &[], &[]), &mut world.categories));
    assert!(!world.categories.at(0).top_level && world.categories.at(1).top_level);
    let mut world = melee();
    assert!(!flag_top_level(&config(&["Other"], &[], &[]), &mut world.categories));
    assert!(!world.categories.at(0).top_level && !world.categories.at(1).top_level);
    let mut empty: Keyed<PowerCategory> = Keyed::new();
    assert!(flag_top_level(&config(&[], &[], &[]), &mut empty));
    assert!(!flag_top_level(&config(&["Melee"], &[], &[]), &mut empty));
}

#[test]
fn a_top_level_category_without_powers_leaves_the_top_level() {
    let mut world = melee();
    world.categories.insert(NameKey::new("Empty"), category("Empty", &["Empty.Set", "Missing.Set"]));
    world.sets.insert(NameKey::new("Empty.Set"), set("Empty.Set", &["Empty.Set.Gone"]));
    world.link(&config(&[], &[], &[]));
    let empty = world.categories.get(&NameKey::new("Empty")).unwrap();
    assert!(!empty.include_in_output);
    assert!(!empty.top_level);
    assert_eq!(empty.pp_power_sets, vec![2]);
    assert!(!world.set_included("Empty.Set"));
    assert!(world.categories.at(0).top_level && world.categories.at(0).include_in_output);
}

#[test]
fn power_sets_are_filtered_by_parts_of_their_names() {
    let mut world = melee();
    world.link(&config(&[], &[], &["SUMMON", "nothing"]));
    assert_eq!(world.sets.len(), 1);
    assert!(world.sets.get(&NameKey::new("Pets.Summon")).is_none());
    assert_eq!(world.categories.at(1).pp_power_sets, Vec::<usize>::new());
    assert!(!world.included("Pets.Summon.Attack"));
    assert!(world.included("Melee.Punching.Jab"));
    assert!(!world.categories.at(1).top_level);
}

#[test]
fn enhancement_groups_are_assigned_once() {
    let mut world = melee();
    let mut first = BoostSet::new();
    first.pch_group_name = Some(String::from("Melee Damage"));
    first.ppch_powers = vec![NameKey::new("melee.punching.jab"), NameKey::new("Melee.Punching.Jab"), NameKey::new("Gone")];
    let mut second = BoostSet::new();
    second.pch_group_name = Some(String::from("Accurate"));
    second.ppch_powers = vec![NameKey::new("Melee.Punching.Jab"), NameKey::new("Pets.Summon.Attack")];
    let mut third = BoostSet::new();
    third.pch_group_name = Some(String::from("Melee Damage"));
    third.ppch_powers = vec![NameKey::new("Melee.Punching.Jab")];
    let mut groupless = BoostSet::new();
    groupless.ppch_powers = vec![NameKey::new("Pets.Summon.Attack")];
    let boost_sets = keyed(vec![("A", first), ("B", second), ("C", third), ("D", groupless)]);
    match_enh_categories_to_powers(&boost_sets, &mut world.powers);
    assert_eq!(world.powers.at(0).enhancement_set_categories_allowed, vec!["Melee Damage", "Accurate"]);
    assert_eq!(world.powers.at(1).enhancement_set_categories_allowed, vec!["Accurate"]);
}
