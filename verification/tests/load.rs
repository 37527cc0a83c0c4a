use powers_dict::bin_parse::ParseErrorKind;
use powers_dict::load::{load_powers_dictionary, LoadError, PowersConfig, Sources};
use powers_dict::structs::NameKey;

fn u32_le(out: &mut Vec<u8>, value: u32) {
    out.extend_from_slice(&value.to_le_bytes());
}

fn zeros(out: &mut Vec<u8>, count: usize) {
    out.extend(std::iter::repeat(0u8).take(count));
}

fn framed(body: &[u8]) -> Vec<u8> {
    let mut out = Vec::new();
    u32_le(&mut out, body.len() as u32);
    out.extend_from_slice(body);
    out
}

fn add_text(pool: &mut Vec<u8>, text: &str) -> u32 {
    if pool.is_empty() {
        pool.push(0);
    }
    let offset = pool.len() as u32;
    pool.extend_from_slice(text.as_bytes());
    pool.push(0);
    offset
}

fn table_file(pool: &[u8], records: &[Vec<u8>]) -> Vec<u8> {
    let mut out = Vec::new();
    out.extend_from_slice(b"CrypticS");
    u32_le(&mut out, 0);
    out.extend_from_slice(&[6, 0]);
    out.extend_from_slice(b"Parse7");
    u32_le(&mut out, pool.len() as u32);
    out.extend_from_slice(pool);
    zeros(&mut out, (4 - pool.len() % 4) % 4);
    let mut body = Vec::new();
    u32_le(&mut body, records.len() as u32);
    for r in records {
        body.extend_from_slice(&framed(r));
    }
    out.extend_from_slice(&framed(&body));
    out
}

fn messages_file() -> Vec<u8> {
    let mut out = Vec::new();
    u32_le(&mut out, 20090521);
    for _ in 0..2 {
        u32_le(&mut out, 0);
        u32_le(&mut out, 0);
    }
    u32_le(&mut out, 0);
    out
}

fn attribs_file() -> Vec<u8> {
    let mut out = table_file(&[], &[]);
    out.truncate(24);
    let mut body = Vec::new();
    zeros(&mut body, 28);
    out.extend_from_slice(&framed(&body));
    out
}

fn sources() -> Sources {
    let mut pool = Vec::new();
    let melee = add_text(&mut pool, "Melee");
    let punching = add_text(&mut pool, "Melee.Punching");
    let jab = add_text(&mut pool, "Melee.Punching.Jab");
    let cross = add_text(&mut pool, "Melee.Punching.Cross");
    let tanker = add_text(&mut pool, "Class_Tanker");
    let mut category = Vec::new();
    u32_le(&mut category, 0);
    u32_le(&mut category, melee);
    zeros(&mut category, 12);
    u32_le(&mut category, 1);
    u32_le(&mut category, punching);
    let mut set = Vec::new();
    u32_le(&mut set, 0);
    u32_le(&mut set, punching);
    zeros(&mut set, 76);
    u32_le(&mut set, 1);
    u32_le(&mut set, jab);
    zeros(&mut set, 28);
    let mut first = Vec::new();
    u32_le(&mut first, jab);
    zeros(&mut first, 372);
    u32_le(&mut first, 1);
    let mut redirect = Vec::new();
    u32_le(&mut redirect, cross);
    zeros(&mut redirect, 8);
    first.extend_from_slice(&framed(&redirect));
    zeros(&mut first, 440);
    let mut second = Vec::new();
    u32_le(&mut second, cross);
    zeros(&mut second, 816);
    let mut class = Vec::new();
    u32_le(&mut class, tanker);
    zeros(&mut class, 48);
    u32_le(&mut class, melee);
    zeros(&mut class, 84);
    Sources {
        messages: messages_file(),
        attrib_names: attribs_file(),
        classes: table_file(&pool, &[class]),
        boost_sets: table_file(&[], &[]),
        villain_classes: table_file(&[], &[]),
        villains: table_file(&[], &[]),
        power_categories: table_file(&pool, &[category]),
        power_sets: table_file(&pool, &[set]),
        powers: table_file(&pool, &[first, second]),
    }
}

fn config(top: &[&str]) -> PowersConfig {
    let mut config = PowersConfig::new();
    config.power_categories = top.iter().map(|n| NameKey::new(n)).collect();
    config
}

#[test]
fn the_dictionary_is_loaded_and_resolved() {
    let dictionary = match load_powers_dictionary(sources(), &config(&["melee"])) {
        Ok(d) => d,
        Err(_) => panic!("loading was to succeed"),
    };
    assert_eq!(dictionary.power_categories.len(), 1);
    assert_eq!(dictionary.power_sets.len(), 1);
    assert_eq!(dictionary.powers.len(), 2);
    assert_eq!(dictionary.archetypes.len(), 1);
    assert_eq!(dictionary.attrib_names.attr_names.len(), 113);
    let category = dictionary.power_categories.at(0);
    assert!(category.top_level && category.include_in_output);
    assert_eq!(category.archetypes.len(), 1);
    assert_eq!(category.pp_power_sets, vec![0]);
    assert!(dictionary.power_sets.at(0).include_in_output);
    assert_eq!(dictionary.power_sets.at(0).pp_powers, vec![0]);
    let jab = dictionary.powers.at(0);
    assert!(jab.include_in_output && jab.redirects_resolved);
    assert_eq!(jab.archetypes.len(), 1);
    // the second power is no power of the set: the redirect includes it
    let cross = dictionary.powers.at(1);
    assert!(cross.include_in_output && cross.redirects_resolved);
    assert_eq!(cross.archetypes, jab.archetypes);
    assert_eq!(dictionary.passes, 3);
}

fn failure(sources: Sources, config: &PowersConfig) -> (Option<&'static str>, Option<ParseErrorKind>) {
    match load_powers_dictionary(sources, config) {
        Ok(_) => panic!("loading was to fail"),
        Err(LoadError::Parse(e)) => (Some(e.message), Some(e.error.kind())),
        Err(LoadError::NoPowerCategories) => (None, None),
    }
}

#[test]
fn no_category_of_the_top_level_is_nothing_to_work_on() {
    assert_eq!(failure(sources(), &config(&["Ranged"])), (None, None));
    // the files after that of the categories are not looked at
    let mut broken = sources();
    broken.powers = Vec::new();
    assert_eq!(failure(broken, &config(&["Ranged"])), (None, None));
}

#[test]
fn the_first_file_that_fails_is_reported() {
    let all = config(&[]);
    let mut broken = sources();
    broken.powers.pop();
    assert_eq!(
        failure(broken, &all),
        (Some("Unable to parse powers table."), Some(ParseErrorKind::ReadError))
    );
    let mut broken = sources();
    broken.powers.push(0);
    broken.power_sets[0] = b'c';
    assert_eq!(
        failure(broken, &all),
        (Some("Unable to open power sets!"), Some(ParseErrorKind::MissingCrypticSig))
    );
    let mut broken = sources();
    broken.classes[21] = 200;
    broken.villains.truncate(10);
    assert_eq!(
        failure(broken, &all),
        (Some("Unable to parse string pool!"), Some(ParseErrorKind::ReadError))
    );
    let mut broken = sources();
    broken.villain_classes[19] = b'8';
    assert_eq!(
        failure(broken, &all),
        (Some("Unable to open classes!"), Some(ParseErrorKind::WrongFileType))
    );
    let mut broken = sources();
    broken.attrib_names[24] = 27;
    assert_eq!(
        failure(broken, &all),
        (
            Some("Unable to read attribute names!"),
            Some(ParseErrorKind::SizeMismatch { expected_bytes: 27, read_bytes: 28 })
        )
    );
    let mut broken = sources();
    broken.messages[0] = 1;
    broken.attrib_names.clear();
    assert_eq!(
        failure(broken, &all),
        (Some("Unable to open client messages!"), Some(ParseErrorKind::MissingCrypticSig))
    );
    let mut broken = sources();
    let at = broken.power_categories.len() - 24;
    broken.power_categories[at] = 0;
    assert_eq!(
        failure(broken, &all),
        (
            Some("Unable to parse power categories table."),
            Some(ParseErrorKind::MissingNameKey)
        )
    );
    let mut broken = sources();
    broken.boost_sets.extend_from_slice(&[0, 0]);
    broken.boost_sets[24] = 5;
    assert_eq!(
        failure(broken, &all),
        (
            Some("Unable to parse boost sets table."),
            Some(ParseErrorKind::SizeMismatch { expected_bytes: 5, read_bytes: 4 })
        )
    );
}
